//! One e-paper frame drawn into the panel's two 1-bit planes: black ink on
//! the first, red ink on the second (the chromatic plane, whose drawn
//! pixels show red). Both planes are rotated for landscape. What is drawn
//! where is decided here; the pixels are set by embedded-graphics, whose
//! effect on a plane's buffer is named rather than spelled out.

use vstd::prelude::*;
use crate::layout::{AirportLabel, Route};
use crate::model::{opt_string_view, CompassPoint, VerticalDirection};
use crate::panel::{
    altitude_speed_line, altitude_speed_x, chosen_labels, heading_distance_line,
    heading_distance_x, label_text_of, lemma_single_line_width, lemma_text_pixels_bound, drop_trailing_cr, near_text, route_labels,
    route_positions, shows_trend, stamp_x, text_width_14pt, text_width_18pt, trend_triangle,
    width_12pt, width_14pt, width_18pt, width_9pt, ARROW_GAP, ARROW_HEAD, ARROW_SHAFT, MARGIN,
    PANEL_WIDTH,
};
use embedded_graphics::draw_target::DrawTarget;
use embedded_graphics::geometry::Point;
use embedded_graphics::mono_font::MonoTextStyle;
use embedded_graphics::primitives::{Line, Primitive, PrimitiveStyle, Triangle};
use embedded_graphics::text::Text;
use embedded_graphics::Drawable;
use epd_waveshare::color::Color;
use epd_waveshare::epd2in7b::Display2in7b;
use epd_waveshare::graphics::DisplayRotation;
use profont::{
    PROFONT_12_POINT, PROFONT_14_POINT, PROFONT_18_POINT, PROFONT_24_POINT, PROFONT_9_POINT,
};

verus! {

/// Bytes in one plane: 176 x 264 pixels, one bit each.
pub const PLANE_BYTES: usize = 5808;

/// Texts drawn on a plane hold fewer characters than this, which keeps
/// glyph positions within embedded-graphics' integer ranges.
pub const MAX_DRAWN_CHARS: usize = 0x100_0000;

/// Each text of a screen holds fewer characters than this, so that the
/// lines built from them stay below [`MAX_DRAWN_CHARS`].
pub const MAX_SCREEN_TEXT: usize = 0x40_0000;

/// Fixed line positions (top y of each line, px). Fixed rather than packed
/// upward when fields are missing, so the frame stays put between
/// refreshes.
pub const Y_HEADER: i32 = 4;

pub const Y_RULE: i32 = 36;

pub const Y_AIRLINE: i32 = 42;

pub const Y_ROUTE: i32 = 64;

pub const Y_DETAIL_1: i32 = 86;

pub const Y_DETAIL_2: i32 = 108;

pub const Y_TYPE: i32 = 130;

/// The profont faces a frame uses.
#[derive(Clone, Copy, Debug, PartialEq, Eq, Structural)]
pub enum Face {
    Pt9,
    Pt12,
    Pt14,
    Pt18,
    Pt24,
}

/// One 1-bit plane of a frame: an epd-waveshare `Display2in7b` buffer,
/// rotated 90 degrees for landscape. Every plane starts blank and is only
/// drawn on through this module, so its rotation never changes.
#[verifier::external_body]
pub struct Plane {
    display: Display2in7b,
}

/// The bytes of a plane's buffer. A set bit is an unwritten (white) pixel.
pub uninterp spec fn plane_bytes(p: Plane) -> Seq<u8>;

/// The buffer after embedded-graphics draws `text` in black at (`x`, `y`)
/// (top-left) in profont's `face`, onto a landscape plane holding `bytes`.
pub uninterp spec fn text_drawn(bytes: Seq<u8>, text: Seq<char>, x: int, y: int, face: Face) -> Seq<u8>;

/// The buffer after embedded-graphics draws a black line from `from` to
/// `to`, `width` pixels thick, onto a landscape plane holding `bytes`.
pub uninterp spec fn line_drawn(bytes: Seq<u8>, from: (int, int), to: (int, int), width: int) -> Seq<u8>;

/// The buffer after embedded-graphics fills the triangle `a`, `b`, `c` in
/// black on a landscape plane holding `bytes`.
pub uninterp spec fn triangle_drawn(bytes: Seq<u8>, a: (int, int), b: (int, int), c: (int, int)) -> Seq<u8>;

/// An all-white buffer.
pub open spec fn white() -> Seq<u8> {
    Seq::new(PLANE_BYTES as nat, |i: int| 0xFFu8)
}

pub open spec fn on_plane(x: int) -> bool {
    -0x2000_0000 <= x <= 0x2000_0000
}

/// Close to the panel: where the frame's shapes are drawn.
pub open spec fn near_panel(x: int) -> bool {
    -1000 <= x <= 1000
}

/// A line short enough for embedded-graphics' stroke arithmetic.
pub open spec fn short_span(a: int, b: int) -> bool {
    -1024 <= b - a <= 1024
}

/// A blank landscape plane: `Display2in7b::default`, turned by
/// `set_rotation(Rotate90)` and cleared to `Color::White`, which sets every
/// bit of the buffer.
#[verifier::external_body]
fn blank_plane() -> (p: Plane)
    ensures
        plane_bytes(p) == white(),
{
    let mut display = Display2in7b::default();
    display.set_rotation(DisplayRotation::Rotate90);
    display.clear(Color::White).ok();
    Plane { display }
}

/// Draws `text` through embedded-graphics' `Text::draw` with a black
/// `MonoTextStyle` of the profont face. The contract names the resulting
/// buffer: it depends on the buffer before and the arguments alone.
#[verifier::external_body]
fn draw_text(p: &mut Plane, text: &str, x: i32, y: i32, face: Face)
    requires
        text@.len() < MAX_DRAWN_CHARS,
        on_plane(x as int),
        on_plane(y as int),
    ensures
        plane_bytes(*final(p)) == text_drawn(plane_bytes(*old(p)), text@, x as int, y as int, face),
{
    let font = match face {
        Face::Pt9 => &PROFONT_9_POINT,
        Face::Pt12 => &PROFONT_12_POINT,
        Face::Pt14 => &PROFONT_14_POINT,
        Face::Pt18 => &PROFONT_18_POINT,
        Face::Pt24 => &PROFONT_24_POINT,
    };
    let style = MonoTextStyle::new(font, Color::Black);
    Text::new(text, Point::new(x, y), style).draw(&mut p.display).ok();
}

/// Draws a black line through embedded-graphics' `Line` styled with
/// `PrimitiveStyle::with_stroke`. The contract names the resulting buffer.
#[verifier::external_body]
fn draw_line(p: &mut Plane, from: (i32, i32), to: (i32, i32), width: u32)
    requires
        on_plane(from.0 as int),
        on_plane(from.1 as int),
        on_plane(to.0 as int),
        on_plane(to.1 as int),
        short_span(from.0 as int, to.0 as int),
        short_span(from.1 as int, to.1 as int),
        width <= 2,
    ensures
        plane_bytes(*final(p)) == line_drawn(
            plane_bytes(*old(p)),
            (from.0 as int, from.1 as int),
            (to.0 as int, to.1 as int),
            width as int,
        ),
{
    Line::new(Point::new(from.0, from.1), Point::new(to.0, to.1)).into_styled(
        PrimitiveStyle::with_stroke(Color::Black, width),
    ).draw(&mut p.display).ok();
}

/// Fills a black triangle through embedded-graphics' `Triangle` styled with
/// `PrimitiveStyle::with_fill`. The contract names the resulting buffer.
#[verifier::external_body]
fn draw_triangle(p: &mut Plane, a: (i32, i32), b: (i32, i32), c: (i32, i32))
    requires
        near_panel(a.0 as int),
        near_panel(a.1 as int),
        near_panel(b.0 as int),
        near_panel(b.1 as int),
        near_panel(c.0 as int),
        near_panel(c.1 as int),
    ensures
        plane_bytes(*final(p)) == triangle_drawn(
            plane_bytes(*old(p)),
            (a.0 as int, a.1 as int),
            (b.0 as int, b.1 as int),
            (c.0 as int, c.1 as int),
        ),
{
    Triangle::new(Point::new(a.0, a.1), Point::new(b.0, b.1), Point::new(c.0, c.1)).into_styled(
        PrimitiveStyle::with_fill(Color::Black),
    ).draw(&mut p.display).ok();
}

/// The buffer of a plane (`Display::buffer`).
#[verifier::external_body]
fn plane_buffer(p: &Plane) -> (b: &[u8])
    ensures
        b@ == plane_bytes(*p),
{
    p.display.buffer()
}

impl Plane {
    /// The plane's buffer, as shipped to the panel.
    pub fn buffer(&self) -> (b: &[u8])
        ensures
            b@ == plane_bytes(*self),
    {
        plane_buffer(self)
    }
}

/// Both planes of one frame.
pub struct Frame {
    pub black: Plane,
    pub chromatic: Plane,
}

/// The content of a frame showing the closest aircraft, each part already
/// worded.
pub struct ClosestScreen {
    /// "HH:MM" local time of the tick.
    pub stamp: String,
    pub callsign: String,
    pub airline: Option<String>,
    pub route: Option<Route>,
    pub altitude: Option<String>,
    pub trend: Option<VerticalDirection>,
    pub speed: Option<String>,
    pub heading: Option<CompassPoint>,
    pub distance: String,
    pub aircraft_type: Option<String>,
}

pub open spec fn fits(t: Seq<char>) -> bool {
    t.len() < MAX_SCREEN_TEXT
}

pub open spec fn opt_fits(t: Option<String>) -> bool {
    match t {
        Some(x) => fits(x@),
        None => true,
    }
}

pub open spec fn label_fits(l: AirportLabel) -> bool {
    opt_fits(l.name) && fits(l.code@)
}

/// Every text of the screen is shorter than [`MAX_SCREEN_TEXT`].
pub open spec fn screen_fits(s: ClosestScreen) -> bool {
    &&& fits(s.stamp@)
    &&& fits(s.callsign@)
    &&& opt_fits(s.airline)
    &&& match s.route {
        Some(Route::Between { origin, destination }) => label_fits(origin) && label_fits(
            destination,
        ),
        Some(Route::Near(l)) => label_fits(l),
        None => true,
    }
    &&& opt_fits(s.altitude)
    &&& opt_fits(s.speed)
    &&& fits(s.distance@)
    &&& opt_fits(s.aircraft_type)
}

/// The two texts of a route line between two airports.
pub open spec fn route_texts(origin: AirportLabel, destination: AirportLabel) -> (
    Seq<char>,
    Seq<char>,
) {
    match (origin.name, destination.name) {
        (Some(a), Some(b)) => chosen_labels(
            origin,
            destination,
            width_12pt(a@) as u32,
            width_12pt(b@) as u32,
        ),
        _ => chosen_labels(origin, destination, 0, 0),
    }
}

/// Where the route arrow starts after the origin text `from`.
pub open spec fn arrow_x(from: Seq<char>) -> int {
    MARGIN + ((width_12pt(from) as u32) as i32) + ARROW_GAP
}

/// The red right-arrow at (`x`, `cy`): a shaft and two wings.
pub open spec fn arrow_drawn(bytes: Seq<u8>, x: int, cy: int) -> Seq<u8> {
    let end = x + ARROW_SHAFT;
    let shaft = line_drawn(bytes, (x, cy), (end, cy), 2);
    let upper = line_drawn(shaft, (end, cy - 4), (end + ARROW_HEAD, cy), 2);
    line_drawn(upper, (end, cy + 4), (end + ARROW_HEAD, cy), 2)
}

/// The compass arrow's shape for a heading, as offsets: the tip and the
/// tail from the centre, and the two wings from the tip. They are the
/// rounded points at 7, 2 and 5 pixels along the heading's screen angle
/// and the angles 150 degrees either side of its reverse.
pub open spec fn compass_shape(h: CompassPoint) -> ((int, int), (int, int), (int, int), (int, int)) {
    match h {
        CompassPoint::East => ((7, 0), (2, 0), (-4, 3), (-4, -3)),
        CompassPoint::Southeast => ((5, 5), (1, 1), (-5, -1), (-1, -5)),
        CompassPoint::South => ((0, 7), (0, 2), (-2, -4), (2, -4)),
        CompassPoint::Southwest => ((-5, 5), (-1, 1), (1, -5), (5, -1)),
        CompassPoint::West => ((-7, 0), (-2, 0), (4, -3), (4, 3)),
        CompassPoint::Northwest => ((-5, -5), (-1, -1), (5, 1), (1, 5)),
        CompassPoint::North => ((0, -7), (0, -2), (3, 4), (-3, 4)),
        CompassPoint::Northeast => ((5, -5), (1, -1), (-1, 5), (-5, 1)),
    }
}

/// The compass arrow for `h` around (`cx`, `cy`): tail to tip, then the two
/// wings from the tip, 2 pixels thick.
pub open spec fn compass_drawn(bytes: Seq<u8>, h: CompassPoint, cx: int, cy: int) -> Seq<u8> {
    let (tip, tail, w1, w2) = compass_shape(h);
    let t = (cx + tip.0, cy + tip.1);
    let body = line_drawn(bytes, (cx - tail.0, cy - tail.1), t, 2);
    let left = line_drawn(body, t, (t.0 + w1.0, t.1 + w1.1), 2);
    line_drawn(left, t, (t.0 + w2.0, t.1 + w2.1), 2)
}

/// The first detail line: altitude and speed, whichever are known.
pub open spec fn first_detail(altitude: Option<String>, speed: Option<String>) -> Option<
    Seq<char>,
> {
    match (altitude, speed) {
        (Some(a), Some(s)) => Some(a@ + " · "@ + s@),
        (Some(a), None) => Some(a@),
        (None, Some(s)) => Some(s@),
        (None, None) => None,
    }
}

/// The second detail line: the heading's abbreviation when known, then the
/// distance.
pub open spec fn second_detail(heading: Option<CompassPoint>, distance: Seq<char>) -> Seq<char> {
    match heading {
        Some(h) => (match h {
            CompassPoint::North => "N",
            CompassPoint::Northeast => "NE",
            CompassPoint::East => "E",
            CompassPoint::Southeast => "SE",
            CompassPoint::South => "S",
            CompassPoint::Southwest => "SW",
            CompassPoint::West => "W",
            CompassPoint::Northwest => "NW",
        })@ + " · "@ + distance,
        None => distance,
    }
}

pub open spec fn trend_shown(s: ClosestScreen) -> bool {
    s.altitude is Some && (s.trend == Some(VerticalDirection::Ascending) || s.trend == Some(
        VerticalDirection::Descending,
    ))
}

/// The black ink of the route line.
pub open spec fn route_black(bytes: Seq<u8>, r: Route) -> Seq<u8> {
    match r {
        Route::Between { origin, destination } => {
            let (from, to) = route_texts(origin, destination);
            let x = arrow_x(from);
            let first = text_drawn(bytes, from, MARGIN as int, Y_ROUTE as int, Face::Pt12);
            text_drawn(first, to, x + ARROW_SHAFT + ARROW_HEAD + ARROW_GAP, Y_ROUTE as int, Face::Pt12)
        },
        Route::Near(l) => text_drawn(
            bytes,
            "near "@ + label_text_of(l),
            MARGIN as int,
            Y_ROUTE as int,
            Face::Pt12,
        ),
    }
}

/// The black plane of a closest-aircraft frame: callsign and time stamp,
/// a rule, the airline, the route's labels, the two detail lines with the
/// compass arrow, and the aircraft type.
pub open spec fn closest_black(s: ClosestScreen) -> Seq<u8> {
    let header = text_drawn(white(), s.callsign@, MARGIN as int, Y_HEADER as int, Face::Pt24);
    let stamped = text_drawn(
        header,
        s.stamp@,
        PANEL_WIDTH - MARGIN - ((width_9pt(s.stamp@) as u32) as i32),
        Y_HEADER + 2,
        Face::Pt9,
    );
    let ruled = line_drawn(
        stamped,
        (MARGIN as int, Y_RULE as int),
        (PANEL_WIDTH - MARGIN, Y_RULE as int),
        1,
    );
    let with_airline = match s.airline {
        Some(a) => text_drawn(ruled, a@, MARGIN as int, Y_AIRLINE as int, Face::Pt14),
        None => ruled,
    };
    let with_route = match s.route {
        Some(r) => route_black(with_airline, r),
        None => with_airline,
    };
    let x1 = if trend_shown(s) {
        MARGIN + crate::panel::TREND_ADVANCE
    } else {
        MARGIN as int
    };
    let with_first = match first_detail(s.altitude, s.speed) {
        Some(t) => text_drawn(with_route, t, x1, Y_DETAIL_1 as int, Face::Pt12),
        None => with_route,
    };
    let with_compass = match s.heading {
        Some(h) => compass_drawn(with_first, h, MARGIN + 6, Y_DETAIL_2 + 7),
        None => with_first,
    };
    let x2 = if s.heading is Some {
        MARGIN + crate::panel::HEADING_ADVANCE
    } else {
        MARGIN as int
    };
    let with_second = text_drawn(
        with_compass,
        second_detail(s.heading, s.distance@),
        x2,
        Y_DETAIL_2 as int,
        Face::Pt12,
    );
    match s.aircraft_type {
        Some(k) => text_drawn(with_second, k@, MARGIN as int, Y_TYPE as int, Face::Pt12),
        None => with_second,
    }
}

/// The trend triangle's corners on the first detail line: pointing up for
/// a climb, down otherwise.
pub open spec fn trend_corners(t: VerticalDirection) -> ((int, int), (int, int), (int, int)) {
    let x = MARGIN as int;
    let y = Y_DETAIL_1 as int;
    if t == VerticalDirection::Ascending {
        ((x, y + 11), (x + 9, y + 11), (x + 4, y + 2))
    } else {
        ((x, y + 2), (x + 9, y + 2), (x + 4, y + 11))
    }
}

/// The red plane with the route arrow, drawn when the route runs between
/// two airports.
pub open spec fn route_red(s: ClosestScreen) -> Seq<u8> {
    match s.route {
        Some(Route::Between { origin, destination }) => arrow_drawn(
            white(),
            arrow_x(route_texts(origin, destination).0),
            Y_ROUTE + 7,
        ),
        _ => white(),
    }
}

/// The red plane of a closest-aircraft frame: the route arrow between two
/// airports, and the trend triangle.
pub open spec fn closest_red(s: ClosestScreen) -> Seq<u8> {
    let with_arrow = route_red(s);
    if trend_shown(s) {
        let (a, b, c) = trend_corners(s.trend->0);
        triangle_drawn(with_arrow, a, b, c)
    } else {
        with_arrow
    }
}

/// The compass arrow's points for heading `h` around (`cx`, `cy`): tail,
/// tip, and the two wing ends.
pub fn compass_points(h: CompassPoint, cx: i32, cy: i32) -> (r: (
    (i32, i32),
    (i32, i32),
    (i32, i32),
    (i32, i32),
))
    requires
        -100 <= cx <= 1000,
        -100 <= cy <= 1000,
    ensures
        ({
            let (tip, tail, w1, w2) = compass_shape(h);
            &&& r.0.0 == cx - tail.0 && r.0.1 == cy - tail.1
            &&& r.1.0 == cx + tip.0 && r.1.1 == cy + tip.1
            &&& r.2.0 == cx + tip.0 + w1.0 && r.2.1 == cy + tip.1 + w1.1
            &&& r.3.0 == cx + tip.0 + w2.0 && r.3.1 == cy + tip.1 + w2.1
        }),
{
    let (tip, tail, w1, w2): ((i32, i32), (i32, i32), (i32, i32), (i32, i32)) = match h {
        CompassPoint::East => ((7, 0), (2, 0), (-4, 3), (-4, -3)),
        CompassPoint::Southeast => ((5, 5), (1, 1), (-5, -1), (-1, -5)),
        CompassPoint::South => ((0, 7), (0, 2), (-2, -4), (2, -4)),
        CompassPoint::Southwest => ((-5, 5), (-1, 1), (1, -5), (5, -1)),
        CompassPoint::West => ((-7, 0), (-2, 0), (4, -3), (4, 3)),
        CompassPoint::Northwest => ((-5, -5), (-1, -1), (5, 1), (1, 5)),
        CompassPoint::North => ((0, -7), (0, -2), (3, 4), (-3, 4)),
        CompassPoint::Northeast => ((5, -5), (1, -1), (-1, 5), (-5, 1)),
    };
    let t = (cx + tip.0, cy + tip.1);
    ((cx - tail.0, cy - tail.1), t, (t.0 + w1.0, t.1 + w1.1), (t.0 + w2.0, t.1 + w2.1))
}

/// Draws the compass arrow for `h` around (`cx`, `cy`).
fn draw_compass(p: &mut Plane, h: CompassPoint, cx: i32, cy: i32)
    requires
        -100 <= cx <= 1000,
        -100 <= cy <= 1000,
    ensures
        plane_bytes(*final(p)) == compass_drawn(plane_bytes(*old(p)), h, cx as int, cy as int),
{
    let (tail, tip, left, right) = compass_points(h, cx, cy);
    draw_line(p, tail, tip, 2);
    draw_line(p, tip, left, 2);
    draw_line(p, tip, right, 2);
}

/// Draws the route line: both labels in black with the red arrow between
/// them, or "near X" when only one end is known.
fn draw_route(black: &mut Plane, red: &mut Plane, route: &Route)
    requires
        match *route {
            Route::Between { origin, destination } => label_fits(origin) && label_fits(
                destination,
            ),
            Route::Near(l) => label_fits(l),
        },
    ensures
        plane_bytes(*final(black)) == route_black(plane_bytes(*old(black)), *route),
        plane_bytes(*final(red)) == match *route {
            Route::Between { origin, destination } => arrow_drawn(
                plane_bytes(*old(red)),
                arrow_x(route_texts(origin, destination).0),
                Y_ROUTE + 7,
            ),
            Route::Near(_) => plane_bytes(*old(red)),
        },
{
    match route {
        Route::Between { origin, destination } => {
            let (from, to) = route_labels(origin, destination);
            proof {
                lemma_text_pixels_bound(from@, 8, 1);
            }
            draw_text(black, from.as_str(), MARGIN, Y_ROUTE, Face::Pt12);
            let (ax, tx) = route_positions(from.as_str());
            let x = ax as i32;
            let cy = Y_ROUTE + 7;
            let end = x + ARROW_SHAFT;
            draw_line(red, (x, cy), (end, cy), 2);
            draw_line(red, (end, cy - 4), (end + ARROW_HEAD, cy), 2);
            draw_line(red, (end, cy + 4), (end + ARROW_HEAD, cy), 2);
            draw_text(black, to.as_str(), tx as i32, Y_ROUTE, Face::Pt12);
        },
        Route::Near(label) => {
            let text = near_text(label);
            proof {
                reveal_strlit("near ");
            }
            draw_text(black, text.as_str(), MARGIN, Y_ROUTE, Face::Pt12);
        },
    }
}

/// Draws a frame showing the closest aircraft. Red ink marks only the
/// route arrow and the trend triangle.
pub fn render_closest(s: &ClosestScreen) -> (f: Frame)
    requires
        screen_fits(*s),
    ensures
        plane_bytes(f.black) == closest_black(*s),
        plane_bytes(f.chromatic) == closest_red(*s),
{
    let mut black = blank_plane();
    let mut red = blank_plane();
    draw_text(&mut black, s.callsign.as_str(), MARGIN, Y_HEADER, Face::Pt24);
    proof {
        lemma_text_pixels_bound(s.stamp@, 6, 0);
    }
    let sx = stamp_x(s.stamp.as_str());
    draw_text(&mut black, s.stamp.as_str(), sx as i32, Y_HEADER + 2, Face::Pt9);
    draw_line(&mut black, (MARGIN, Y_RULE), (PANEL_WIDTH - MARGIN, Y_RULE), 1);
    if let Some(a) = &s.airline {
        draw_text(&mut black, a.as_str(), MARGIN, Y_AIRLINE, Face::Pt14);
    }
    if let Some(route) = &s.route {
        draw_route(&mut black, &mut red, route);
    }
    let shown = shows_trend(&s.altitude, s.trend);
    if shown {
        let t = match s.trend {
            Some(t) => t,
            None => VerticalDirection::Level,
        };
        let (a, b, c) = trend_triangle(t, MARGIN, Y_DETAIL_1);
        draw_triangle(&mut red, a, b, c);
    }
    let first = altitude_speed_line(&s.altitude, &s.speed);
    proof {
        reveal_strlit(" · ");
    }
    if let Some(line) = &first {
        draw_text(&mut black, line.as_str(), altitude_speed_x(shown), Y_DETAIL_1, Face::Pt12);
    }
    if let Some(h) = s.heading {
        draw_compass(&mut black, h, MARGIN + 6, Y_DETAIL_2 + 7);
    }
    let second = heading_distance_line(s.heading, s.distance.as_str());
    proof {
        reveal_strlit("N");
        reveal_strlit("NE");
        reveal_strlit("E");
        reveal_strlit("SE");
        reveal_strlit("S");
        reveal_strlit("SW");
        reveal_strlit("W");
        reveal_strlit("NW");
    }
    draw_text(
        &mut black,
        second.as_str(),
        heading_distance_x(s.heading.is_some()),
        Y_DETAIL_2,
        Face::Pt12,
    );
    if let Some(k) = &s.aircraft_type {
        draw_text(&mut black, k.as_str(), MARGIN, Y_TYPE, Face::Pt12);
    }
    Frame { black, chromatic: red }
}

/// The x at which a text `w` pixels wide sits centred on the panel (the
/// halved remainder, rounded toward zero).
pub open spec fn centered_x(w: int) -> int {
    let n = PANEL_WIDTH - w;
    if n >= 0 {
        n / 2
    } else {
        -((-n) / 2)
    }
}

fn centered(w: u32) -> (x: i32)
    requires
        w <= 0x1000_0000,
    ensures
        x == centered_x(w as int),
{
    let n: i64 = PANEL_WIDTH as i64 - w as i64;
    if n >= 0 {
        (n / 2) as i32
    } else {
        (-((-n) / 2)) as i32
    }
}

/// The black plane of a frame with no aircraft around: "No aircraft
/// within", the radius line and the time stamp, each centred.
pub open spec fn empty_black(stamp: Seq<char>, radius_line: Seq<char>) -> Seq<u8> {
    let first = text_drawn(
        white(),
        "No aircraft within"@,
        centered_x(width_18pt("No aircraft within"@)),
        52,
        Face::Pt18,
    );
    let second = text_drawn(first, radius_line, centered_x(width_18pt(radius_line)), 78, Face::Pt18);
    text_drawn(second, stamp, centered_x(width_14pt(stamp)), 112, Face::Pt14)
}

/// Draws a frame saying that no aircraft is within the radius; the radius
/// line (such as "30 km of home") comes worded. The red plane stays white.
pub fn render_empty(stamp: &str, radius_line: &str) -> (f: Frame)
    requires
        fits(stamp@),
        fits(radius_line@),
    ensures
        plane_bytes(f.black) == empty_black(stamp@, radius_line@),
        plane_bytes(f.chromatic) == white(),
{
    let mut black = blank_plane();
    let red = blank_plane();
    let line1 = "No aircraft within";
    proof {
        reveal_strlit("No aircraft within");
        lemma_text_pixels_bound(line1@, 12, 0);
        lemma_text_pixels_bound(radius_line@, 12, 0);
        lemma_text_pixels_bound(stamp@, 10, 0);
    }
    let x1 = centered(text_width_18pt(line1));
    draw_text(&mut black, line1, x1, 52, Face::Pt18);
    let x2 = centered(text_width_18pt(radius_line));
    draw_text(&mut black, radius_line, x2, 78, Face::Pt18);
    let x3 = centered(text_width_14pt(stamp));
    draw_text(&mut black, stamp, x3, 112, Face::Pt14);
    Frame { black, chromatic: red }
}

pub open spec fn same_label(a: AirportLabel, b: AirportLabel) -> bool {
    opt_string_view(a.name) == opt_string_view(b.name) && a.code@ == b.code@
}

pub open spec fn same_route(a: Option<Route>, b: Option<Route>) -> bool {
    match (a, b) {
        (None, None) => true,
        (
            Some(Route::Between { origin: o1, destination: d1 }),
            Some(Route::Between { origin: o2, destination: d2 }),
        ) => same_label(o1, o2) && same_label(d1, d2),
        (Some(Route::Near(l1)), Some(Route::Near(l2))) => same_label(l1, l2),
        _ => false,
    }
}

/// Two screens that read the same: every text has the same characters and
/// the trend and heading agree.
pub open spec fn same_screen(a: ClosestScreen, b: ClosestScreen) -> bool {
    &&& a.stamp@ == b.stamp@
    &&& a.callsign@ == b.callsign@
    &&& opt_string_view(a.airline) == opt_string_view(b.airline)
    &&& same_route(a.route, b.route)
    &&& opt_string_view(a.altitude) == opt_string_view(b.altitude)
    &&& a.trend == b.trend
    &&& opt_string_view(a.speed) == opt_string_view(b.speed)
    &&& a.heading == b.heading
    &&& a.distance@ == b.distance@
    &&& opt_string_view(a.aircraft_type) == opt_string_view(b.aircraft_type)
}

proof fn lemma_same_label_texts(o1: AirportLabel, d1: AirportLabel, o2: AirportLabel, d2: AirportLabel)
    requires
        same_label(o1, o2),
        same_label(d1, d2),
    ensures
        route_texts(o1, d1) == route_texts(o2, d2),
        label_text_of(o1) == label_text_of(o2),
{
}

/// A frame depends on what its screen reads and nothing else: screens that
/// read the same give the same pixels on both planes (so an unchanged
/// screen can skip the panel's slow refresh).
pub proof fn lemma_same_screen_same_frame(a: ClosestScreen, b: ClosestScreen)
    requires
        same_screen(a, b),
    ensures
        closest_black(a) == closest_black(b),
        closest_red(a) == closest_red(b),
{
    match (a.route, b.route) {
        (
            Some(Route::Between { origin: o1, destination: d1 }),
            Some(Route::Between { origin: o2, destination: d2 }),
        ) => {
            lemma_same_label_texts(o1, d1, o2, d2);
        },
        (Some(Route::Near(l1)), Some(Route::Near(l2))) => {
            lemma_same_label_texts(l1, l1, l2, l2);
        },
        _ => {},
    }
    assert(first_detail(a.altitude, a.speed) == first_detail(b.altitude, b.speed));
    assert(trend_shown(a) == trend_shown(b));
}

/// Red ink marks only the route arrow and the trend triangle: without a
/// route between two airports and without a climb or descent next to a
/// known altitude, the red plane stays white.
pub proof fn lemma_red_only_for_arrow_and_trend(s: ClosestScreen)
    requires
        !(s.route matches Some(Route::Between { .. })),
        !trend_shown(s),
    ensures
        closest_red(s) == white(),
{
}

/// The red triangle points the way the aircraft is going: for a descent
/// its apex (12, 97) lies below its base along y 88, for a climb its apex
/// (12, 88) lies above its base along y 97. Nothing else is drawn on top of
/// the route arrow.
pub proof fn lemma_trend_triangle_points_with_trend(s: ClosestScreen)
    requires
        trend_shown(s),
    ensures
        s.trend == Some(VerticalDirection::Descending) ==> closest_red(s) == triangle_drawn(
            route_red(s),
            (8, 88),
            (17, 88),
            (12, 97),
        ),
        s.trend == Some(VerticalDirection::Ascending) ==> closest_red(s) == triangle_drawn(
            route_red(s),
            (8, 97),
            (17, 97),
            (12, 88),
        ),
{
}

/// A radius `w` pixels wide sits centred: the space left on its two sides
/// differs by at most one pixel (the odd pixel goes to the right).
pub proof fn lemma_centered(w: int)
    ensures
        0 <= (PANEL_WIDTH - w - centered_x(w)) - centered_x(w) <= 1 || (w > PANEL_WIDTH && -1 <= (
        PANEL_WIDTH - w - centered_x(w)) - centered_x(w) <= 0),
{
}

/// The no-aircraft frame reads, top to bottom: "No aircraft within" in
/// 18 pt at y 52, 24 px from the left (216 px wide, centred); the radius
/// line in 18 pt, centred at y 78; and the time stamp in 14 pt, centred at
/// y 112. Each is drawn on the plane holding the ones above it.
pub proof fn lemma_empty_frame_lines(stamp: Seq<char>, radius_line: Seq<char>)
    ensures
        empty_black(stamp, radius_line) == text_drawn(
            text_drawn(
                text_drawn(white(), "No aircraft within"@, 24, 52, Face::Pt18),
                radius_line,
                centered_x(width_18pt(radius_line)),
                78,
                Face::Pt18,
            ),
            stamp,
            centered_x(width_14pt(stamp)),
            112,
            Face::Pt14,
        ),
{
    reveal_strlit("No aircraft within");
    let line = "No aircraft within"@;
    assert(forall|i: int| 0 <= i < line.len() ==> line[i] != '\n');
    lemma_single_line_width(line, 12, 0);
    assert(drop_trailing_cr(line) == line);
}

/// The red route arrow stands between the two labels, along y 71: its
/// shaft runs 12 px from 2 px after the origin label, and two wings run
/// 5 px from the shaft's end, 4 px above and below, to the tip. A route
/// known only at one end, or no route, draws no arrow.
pub proof fn lemma_route_arrow_place(s: ClosestScreen)
    requires
        screen_fits(s),
    ensures
        match s.route {
            Some(Route::Between { origin, destination }) => {
                let x = 8 + width_12pt(route_texts(origin, destination).0) + 2;
                route_red(s) == line_drawn(
                    line_drawn(line_drawn(white(), (x, 71), (x + 12, 71), 2), (x + 12, 67), (x + 17, 71), 2),
                    (x + 12, 75),
                    (x + 17, 71),
                    2,
                )
            },
            _ => route_red(s) == white(),
        },
{
    if let Some(Route::Between { origin, destination }) = s.route {
        lemma_text_pixels_bound(route_texts(origin, destination).0, 8, 1);
    }
}

/// Where a closest-aircraft frame puts each part on the black plane, top
/// to bottom: the callsign at (8, 4) in 24 pt; the time stamp in 9 pt at
/// y 6, ending 8 px from the right edge; a rule along y 36 from x 8 to
/// x 256; the airline at (8, 42) in 14 pt; the route line at y 64 in
/// 12 pt (the origin at x 8, the destination 21 px after it, or "near X"
/// at x 8); the altitude and speed at y 86, 14 px further right when the
/// trend triangle stands before them; the compass arrow around (14, 115);
/// the heading and distance at y 108, 16 px further right when the arrow
/// stands before them; and the aircraft type at (8, 130).
pub proof fn lemma_closest_frame_layout(s: ClosestScreen)
    requires
        screen_fits(s),
    ensures
        ({
            let header = text_drawn(white(), s.callsign@, 8, 4, Face::Pt24);
            let stamped = text_drawn(header, s.stamp@, 256 - width_9pt(s.stamp@), 6, Face::Pt9);
            let ruled = line_drawn(stamped, (8, 36), (256, 36), 1);
            let with_airline = match s.airline {
                Some(a) => text_drawn(ruled, a@, 8, 42, Face::Pt14),
                None => ruled,
            };
            let with_route = match s.route {
                Some(Route::Between { origin, destination }) => {
                    let (from, to) = route_texts(origin, destination);
                    text_drawn(
                        text_drawn(with_airline, from, 8, 64, Face::Pt12),
                        to,
                        8 + width_12pt(from) + 21,
                        64,
                        Face::Pt12,
                    )
                },
                Some(Route::Near(l)) => text_drawn(
                    with_airline,
                    "near "@ + label_text_of(l),
                    8,
                    64,
                    Face::Pt12,
                ),
                None => with_airline,
            };
            let with_first = match first_detail(s.altitude, s.speed) {
                Some(t) => text_drawn(
                    with_route,
                    t,
                    if trend_shown(s) {
                        22
                    } else {
                        8
                    },
                    86,
                    Face::Pt12,
                ),
                None => with_route,
            };
            let with_compass = match s.heading {
                Some(h) => compass_drawn(with_first, h, 14, 115),
                None => with_first,
            };
            let with_second = text_drawn(
                with_compass,
                second_detail(s.heading, s.distance@),
                if s.heading is Some {
                    24
                } else {
                    8
                },
                108,
                Face::Pt12,
            );
            closest_black(s) == match s.aircraft_type {
                Some(k) => text_drawn(with_second, k@, 8, 130, Face::Pt12),
                None => with_second,
            }
        }),
{
    lemma_text_pixels_bound(s.stamp@, 6, 0);
    if let Some(Route::Between { origin, destination }) = s.route {
        let (from, to) = route_texts(origin, destination);
        lemma_text_pixels_bound(from, 8, 1);
    }
}

} // verus!
