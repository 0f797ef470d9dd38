//! What the e-paper frame shows, decided before anything is drawn: which
//! labels fit the route line, what each detail line reads, and where the
//! trend marker goes. The frame module draws it.

use vstd::prelude::*;
use crate::layout::AirportLabel;
use crate::model::{CompassPoint, VerticalDirection};
use crate::text::{chars_of, extend_chars, extend_str, string_of};
use embedded_graphics::geometry::{Dimensions, Point};
use embedded_graphics::mono_font::MonoTextStyle;
use embedded_graphics::pixelcolor::BinaryColor;
use embedded_graphics::text::Text;
use profont::{PROFONT_12_POINT, PROFONT_14_POINT, PROFONT_18_POINT, PROFONT_9_POINT};

verus! {

/// Landscape width after rotation (the native panel is 176x264 portrait).
pub const PANEL_WIDTH: i32 = 264;

pub const MARGIN: i32 = 8;

/// Route arrow geometry and the gaps around it.
pub const ARROW_GAP: i32 = 2;

pub const ARROW_SHAFT: i32 = 12;

pub const ARROW_HEAD: i32 = 5;

/// Horizontal space the arrow consumes between the two route labels.
pub const ARROW_TOTAL: i32 = ARROW_GAP + ARROW_SHAFT + ARROW_HEAD + ARROW_GAP;

/// Space reserved for the trend triangle ahead of the altitude text.
pub const TREND_ADVANCE: i32 = 14;

/// Space reserved for the compass arrow ahead of the heading text.
pub const HEADING_ADVANCE: i32 = 16;

/// Texts measured for the panel hold fewer characters than this, which
/// keeps embedded-graphics' line positions and widths, and the panel's sums
/// of two widths, within `i32`.
pub const MAX_MEASURED_CHARS: usize = 0x400_0000;

/// A line as embedded-graphics measures it: without a trailing `'\r'`
/// (left over from a `"\r\n"` line ending).
pub open spec fn drop_trailing_cr(line: Seq<char>) -> Seq<char> {
    if line.len() > 0 && line.last() == '\r' {
        line.drop_last()
    } else {
        line
    }
}

/// The width of a line of `n` characters in a monospaced face whose glyphs
/// advance `advance` pixels and are `spacing` pixels apart: the last
/// glyph's trailing spacing is not counted.
pub open spec fn line_pixels(n: nat, advance: nat, spacing: nat) -> int {
    if n == 0 {
        0
    } else {
        n * advance - spacing
    }
}

pub open spec fn max_int(a: int, b: int) -> int {
    if a < b {
        b
    } else {
        a
    }
}

/// Scanning `text` left to right: the width of the widest line finished so
/// far, and the line being read.
pub open spec fn line_scan(text: Seq<char>, advance: nat, spacing: nat) -> (int, Seq<char>)
    decreases text.len(),
{
    if text.len() == 0 {
        (0, Seq::empty())
    } else {
        let (widest, cur) = line_scan(text.drop_last(), advance, spacing);
        if text.last() == '\n' {
            (max_int(widest, line_pixels(drop_trailing_cr(cur).len(), advance, spacing)), Seq::empty())
        } else {
            (widest, cur.push(text.last()))
        }
    }
}

/// The bounding-box width of `text` drawn from the origin: the widest of
/// its `'\n'`-separated lines, each measured without a trailing `'\r'`.
pub open spec fn text_pixels(text: Seq<char>, advance: nat, spacing: nat) -> int {
    let (widest, cur) = line_scan(text, advance, spacing);
    max_int(widest, line_pixels(drop_trailing_cr(cur).len(), advance, spacing))
}

/// The width of `text` in profont's 12 pt face: 7-pixel glyphs 1 pixel
/// apart.
pub open spec fn width_12pt(text: Seq<char>) -> int {
    text_pixels(text, 8, 1)
}

/// The width of `text` in profont's 9 pt face: 6-pixel glyphs, no spacing.
pub open spec fn width_9pt(text: Seq<char>) -> int {
    text_pixels(text, 6, 0)
}

proof fn lemma_line_scan_single(text: Seq<char>, advance: nat, spacing: nat)
    requires
        forall|i: int| 0 <= i < text.len() ==> text[i] != '\n',
    ensures
        line_scan(text, advance, spacing) == (0int, text),
    decreases text.len(),
{
    if text.len() > 0 {
        let p = text.drop_last();
        assert forall|i: int| 0 <= i < p.len() implies p[i] != '\n' by {
            assert(p[i] == text[i]);
        }
        lemma_line_scan_single(p, advance, spacing);
        assert(text.last() == text[text.len() - 1]);
        assert(p.push(text.last()) =~= text);
    }
}

/// A text without line breaks is as wide as its characters, less a
/// trailing `'\r'`, laid side by side.
pub proof fn lemma_single_line_width(text: Seq<char>, advance: nat, spacing: nat)
    requires
        forall|i: int| 0 <= i < text.len() ==> text[i] != '\n',
        spacing <= advance,
    ensures
        text_pixels(text, advance, spacing) == line_pixels(
            drop_trailing_cr(text).len(),
            advance,
            spacing,
        ),
{
    lemma_line_scan_single(text, advance, spacing);
    let n = drop_trailing_cr(text).len();
    if n > 0 {
        assert(n * advance >= advance) by (nonlinear_arith)
            requires
                n >= 1,
        ;
    }
}

proof fn lemma_line_scan_bound(text: Seq<char>, advance: nat, spacing: nat)
    requires
        spacing <= advance,
    ensures
        0 <= line_scan(text, advance, spacing).0 <= text.len() * advance,
        line_scan(text, advance, spacing).1.len() <= text.len(),
    decreases text.len(),
{
    if text.len() > 0 {
        let p = text.drop_last();
        lemma_line_scan_bound(p, advance, spacing);
        let (widest, cur) = line_scan(p, advance, spacing);
        let n = drop_trailing_cr(cur).len();
        assert(p.len() * advance <= text.len() * advance) by (nonlinear_arith)
            requires
                p.len() <= text.len(),
        ;
        assert(0 <= line_pixels(n, advance, spacing) <= p.len() * advance) by (nonlinear_arith)
            requires
                n <= p.len(),
                spacing <= advance,
                line_pixels(n, advance, spacing) == if n == 0 {
                    0
                } else {
                    n * advance - spacing
                },
        ;
    }
}

/// A text is never wider than its characters laid side by side at full
/// advance.
pub proof fn lemma_text_pixels_bound(text: Seq<char>, advance: nat, spacing: nat)
    requires
        spacing <= advance,
    ensures
        0 <= text_pixels(text, advance, spacing) <= text.len() * advance,
{
    lemma_line_scan_bound(text, advance, spacing);
    let (widest, cur) = line_scan(text, advance, spacing);
    let n = drop_trailing_cr(cur).len();
    assert(0 <= line_pixels(n, advance, spacing) <= text.len() * advance) by (nonlinear_arith)
        requires
            n <= text.len(),
            spacing <= advance,
            line_pixels(n, advance, spacing) == if n == 0 {
                0
            } else {
                n * advance - spacing
            },
    ;
}

/// The width of `text` in profont's 14 pt face: 10-pixel glyphs, no
/// spacing.
pub open spec fn width_14pt(text: Seq<char>) -> int {
    text_pixels(text, 10, 0)
}

/// The width of `text` in profont's 18 pt face: 12-pixel glyphs, no
/// spacing.
pub open spec fn width_18pt(text: Seq<char>) -> int {
    text_pixels(text, 12, 0)
}

/// The bounding-box width (`Dimensions::bounding_box` of an
/// embedded-graphics `Text` at the origin, left-aligned) of `text` in
/// profont's 12 pt face: the widest `'\n'`-separated line, each line
/// measured by `MonoTextStyle::measure_string` after `Text` drops its
/// trailing `'\r'`. Shorter than [`MAX_MEASURED_CHARS`], no position or
/// width overflows.
#[verifier::external_body]
fn text_width_12pt(text: &str) -> (w: u32)
    requires
        text@.len() < MAX_MEASURED_CHARS,
    ensures
        w == width_12pt(text@),
{
    let style = MonoTextStyle::new(&PROFONT_12_POINT, BinaryColor::On);
    Text::new(text, Point::zero(), style).bounding_box().size.width
}

/// A single airport's text: its trimmed name when known, its code otherwise.
pub open spec fn label_text_of(l: AirportLabel) -> Seq<char> {
    match l.name {
        Some(n) => n@,
        None => l.code@,
    }
}

/// The text of a single airport: trimmed name when known, compact code
/// otherwise.
pub fn label_text(label: &AirportLabel) -> (r: String)
    ensures
        r@ == label_text_of(*label),
{
    match &label.name {
        Some(n) => n.clone(),
        None => label.code.clone(),
    }
}

/// The route line when only one end is known: "near X".
pub fn near_text(label: &AirportLabel) -> (r: String)
    ensures
        r@ == "near "@ + label_text_of(*label),
{
    let mut out: Vec<char> = Vec::new();
    extend_str(&mut out, "near ");
    let text = label_text(label);
    extend_str(&mut out, text.as_str());
    string_of(&out)
}

/// The bounding-box width of `text` in profont's 9 pt face, measured as
/// for [`text_width_12pt`].
#[verifier::external_body]
fn text_width_9pt(text: &str) -> (w: u32)
    requires
        text@.len() < MAX_MEASURED_CHARS,
    ensures
        w == width_9pt(text@),
{
    let style = MonoTextStyle::new(&PROFONT_9_POINT, BinaryColor::On);
    Text::new(text, Point::zero(), style).bounding_box().size.width
}

/// The bounding-box width of `text` in profont's 14 pt face, measured as
/// for [`text_width_12pt`].
#[verifier::external_body]
pub(crate) fn text_width_14pt(text: &str) -> (w: u32)
    requires
        text@.len() < MAX_MEASURED_CHARS,
    ensures
        w == width_14pt(text@),
{
    let style = MonoTextStyle::new(&PROFONT_14_POINT, BinaryColor::On);
    Text::new(text, Point::zero(), style).bounding_box().size.width
}

/// The bounding-box width of `text` in profont's 18 pt face, measured as
/// for [`text_width_12pt`].
#[verifier::external_body]
pub(crate) fn text_width_18pt(text: &str) -> (w: u32)
    requires
        text@.len() < MAX_MEASURED_CHARS,
    ensures
        w == width_18pt(text@),
{
    let style = MonoTextStyle::new(&PROFONT_18_POINT, BinaryColor::On);
    Text::new(text, Point::zero(), style).bounding_box().size.width
}

/// Where the header's time stamp starts: right-aligned against the margin.
pub fn stamp_x(stamp: &str) -> (x: i64)
    requires
        stamp@.len() < MAX_MEASURED_CHARS,
    ensures
        x == PANEL_WIDTH - MARGIN - ((width_9pt(stamp@) as u32) as i32),
{
    let w = text_width_9pt(stamp) as i32;
    PANEL_WIDTH as i64 - MARGIN as i64 - w as i64
}

/// Where the route arrow and the destination label start, after an origin
/// label `from` drawn at the margin.
pub fn route_positions(from: &str) -> (r: (i64, i64))
    requires
        from@.len() < MAX_MEASURED_CHARS,
    ensures
        r.0 == MARGIN + ((width_12pt(from@) as u32) as i32) + ARROW_GAP,
        r.1 == r.0 + ARROW_SHAFT + ARROW_HEAD + ARROW_GAP,
{
    let w = text_width_12pt(from) as i32;
    let arrow_x = MARGIN as i64 + w as i64 + ARROW_GAP as i64;
    (arrow_x, arrow_x + ARROW_SHAFT as i64 + ARROW_HEAD as i64 + ARROW_GAP as i64)
}

/// Where the first detail line's text starts: after the trend marker when
/// one is drawn.
pub fn altitude_speed_x(trend_shown: bool) -> (x: i32)
    ensures
        x == if trend_shown {
            MARGIN + TREND_ADVANCE
        } else {
            MARGIN as int
        },
{
    if trend_shown {
        MARGIN + TREND_ADVANCE
    } else {
        MARGIN
    }
}

/// Where the second detail line's text starts: after the compass arrow
/// when a heading is known.
pub fn heading_distance_x(has_heading: bool) -> (x: i32)
    ensures
        x == if has_heading {
            MARGIN + HEADING_ADVANCE
        } else {
            MARGIN as int
        },
{
    if has_heading {
        MARGIN + HEADING_ADVANCE
    } else {
        MARGIN
    }
}

/// The width of a route line showing names `a` and `b` that measure
/// `wa` and `wb` pixels, with the arrow and the margins on both sides
/// (widths are taken as `i32`, as the panel's geometry is).
pub open spec fn route_width_of(wa: u32, wb: u32) -> int {
    MARGIN + (wa as i32) + ARROW_TOTAL + (wb as i32) + MARGIN
}

/// The width of a route line showing `a`, the arrow, and `b`.
pub open spec fn route_width(a: Seq<char>, b: Seq<char>) -> int {
    route_width_of(width_12pt(a) as u32, width_12pt(b) as u32)
}

/// The labels a route line shows, given what the two names measure: the
/// names when both are known and fit the panel width, both codes when both
/// names are known but do not fit, and each airport's own text otherwise.
pub open spec fn chosen_labels(
    origin: AirportLabel,
    destination: AirportLabel,
    wa: u32,
    wb: u32,
) -> (Seq<char>, Seq<char>) {
    match (origin.name, destination.name) {
        (Some(a), Some(b)) => if route_width_of(wa, wb) <= PANEL_WIDTH {
            (a@, b@)
        } else {
            (origin.code@, destination.code@)
        },
        _ => (label_text_of(origin), label_text_of(destination)),
    }
}

/// Labels for the route line, given the measured widths of the two names
/// (the widths matter only when both names are known). Widths are added as
/// 64-bit numbers.
pub fn route_labels_for_widths(
    origin: &AirportLabel,
    destination: &AirportLabel,
    origin_width: u32,
    destination_width: u32,
) -> (r: (String, String))
    ensures
        (r.0@, r.1@) == chosen_labels(*origin, *destination, origin_width, destination_width),
{
    if let (Some(a), Some(b)) = (&origin.name, &destination.name) {
        let wa = origin_width as i32;
        let wb = destination_width as i32;
        let total: i64 = MARGIN as i64 + wa as i64 + ARROW_TOTAL as i64 + wb as i64 + MARGIN as i64;
        if total <= PANEL_WIDTH as i64 {
            return (a.clone(), b.clone());
        }
        return (origin.code.clone(), destination.code.clone());
    }
    (label_text(origin), label_text(destination))
}

/// Labels for the route line: trimmed names when both fit the panel width
/// in profont's 12 pt face, compact codes otherwise (never a mix: "Athens…
/// → LHR" reads worse than "ATH → LHR").
pub fn route_labels(origin: &AirportLabel, destination: &AirportLabel) -> (r: (String, String))
    requires
        origin.name matches Some(a) ==> a@.len() < MAX_MEASURED_CHARS,
        destination.name matches Some(b) ==> b@.len() < MAX_MEASURED_CHARS,
    ensures
        match (origin.name, destination.name) {
            (Some(a), Some(b)) => (r.0@, r.1@) == chosen_labels(
                *origin,
                *destination,
                width_12pt(a@) as u32,
                width_12pt(b@) as u32,
            ),
            _ => (r.0@, r.1@) == chosen_labels(*origin, *destination, 0, 0),
        },
{
    if let (Some(a), Some(b)) = (&origin.name, &destination.name) {
        let wa = text_width_12pt(a.as_str());
        let wb = text_width_12pt(b.as_str());
        return route_labels_for_widths(origin, destination, wa, wb);
    }
    route_labels_for_widths(origin, destination, 0, 0)
}

/// The first detail line: altitude and speed, whichever are known,
/// separated by " · ".
pub fn altitude_speed_line(altitude: &Option<String>, speed: &Option<String>) -> (r: Option<String>)
    ensures
        match (*altitude, *speed) {
            (Some(a), Some(s)) => r matches Some(t) && t@ == a@ + " · "@ + s@,
            (Some(a), None) => r matches Some(t) && t@ == a@,
            (None, Some(s)) => r matches Some(t) && t@ == s@,
            (None, None) => r is None,
        },
{
    match (altitude, speed) {
        (Some(a), Some(s)) => {
            let mut out = chars_of(a.as_str());
            extend_str(&mut out, " · ");
            extend_str(&mut out, s.as_str());
            Some(string_of(&out))
        },
        (Some(a), None) => Some(a.clone()),
        (None, Some(s)) => Some(s.clone()),
        (None, None) => None,
    }
}

/// Whether the first detail line carries a trend marker: only next to a
/// known altitude, and only for a climb or a descent.
pub fn shows_trend(altitude: &Option<String>, trend: Option<VerticalDirection>) -> (r: bool)
    ensures
        r == (altitude is Some && (trend == Some(VerticalDirection::Ascending) || trend == Some(
            VerticalDirection::Descending,
        ))),
{
    altitude.is_some() && match trend {
        Some(VerticalDirection::Ascending) => true,
        Some(VerticalDirection::Descending) => true,
        _ => false,
    }
}

/// The second detail line: the heading's abbreviation when known, then the
/// distance, separated by " · ".
pub fn heading_distance_line(heading: Option<CompassPoint>, distance: &str) -> (r: String)
    ensures
        match heading {
            Some(h) => r@ == (match h {
                CompassPoint::North => "N",
                CompassPoint::Northeast => "NE",
                CompassPoint::East => "E",
                CompassPoint::Southeast => "SE",
                CompassPoint::South => "S",
                CompassPoint::Southwest => "SW",
                CompassPoint::West => "W",
                CompassPoint::Northwest => "NW",
            })@ + " · "@ + distance@,
            None => r@ == distance@,
        },
{
    let mut out: Vec<char> = Vec::new();
    if let Some(h) = heading {
        extend_str(&mut out, h.abbrev());
        extend_str(&mut out, " · ");
    }
    let d = chars_of(distance);
    extend_chars(&mut out, &d);
    string_of(&out)
}

/// The corners of the filled trend triangle drawn at `x` on a 12 pt line
/// whose top is `y_top`: pointing up for a climb, down otherwise.
pub fn trend_triangle(trend: VerticalDirection, x: i32, y_top: i32) -> (r: (
    (i32, i32),
    (i32, i32),
    (i32, i32),
))
    requires
        x + 9 <= i32::MAX,
        i32::MIN <= y_top + 2,
        y_top + 11 <= i32::MAX,
    ensures
        r.0.0 == x,
        r.1.0 == x + 9,
        r.2.0 == x + 4,
        trend == VerticalDirection::Ascending ==> r.0.1 == y_top + 11 && r.1.1 == y_top + 11
            && r.2.1 == y_top + 2,
        trend != VerticalDirection::Ascending ==> r.0.1 == y_top + 2 && r.1.1 == y_top + 2
            && r.2.1 == y_top + 11,
{
    let cy = y_top + 7;
    match trend {
        VerticalDirection::Ascending => ((x, cy + 4), (x + 9, cy + 4), (x + 4, cy - 5)),
        _ => ((x, cy - 5), (x + 9, cy - 5), (x + 4, cy + 4)),
    }
}

/// Both route labels are names or both are codes: when both airports have
/// names, a name is never paired with a code, whatever the names measure.
pub proof fn lemma_route_labels_never_mix(
    origin: AirportLabel,
    destination: AirportLabel,
    wa: u32,
    wb: u32,
)
    requires
        origin.name is Some,
        destination.name is Some,
    ensures
        chosen_labels(origin, destination, wa, wb) == (origin.name->0@, destination.name->0@)
            || chosen_labels(origin, destination, wa, wb) == (origin.code@, destination.code@),
{
}

} // verus!
