//! Wording for one e-paper frame: route labels, trimmed airport and airline
//! names, and numbers with thousands separators.
//!
//! Compared to the terminal wording, the registration is dropped (no room)
//! and airport names are trimmed to fit the 264 px panel.

use vstd::prelude::*;
use crate::model::{AirportRef, opt_string_view};
use crate::number::{grouped_decimal, grouped_decimal_chars};
use crate::text::{
    Delimiter, chars_eq, chars_of, collapse, collapse_chars, extend_chars, extend_str, is_space,
    join, join_chars, lemma_collapse_single_spaced, lemma_fields_parts, lemma_join_single_spaced,
    single_spaced, split_fields, string_of, take_chars, trim_end, trim_end_chars, views, words,
};

verus! {

/// Airport names are capped for the panel: at most this many words...
pub const AIRPORT_MAX_WORDS: usize = 3;

/// ...and this many characters, so two labels plus the route arrow fit the
/// route line; a cut name is marked with an ellipsis.
pub const AIRPORT_MAX_CHARS: usize = 14;

/// Airline names are capped to keep the 14 pt line inside the panel.
pub const AIRLINE_MAX_CHARS: usize = 24;

/// How one airport is shown. The trimmed name is preferred; the compact code
/// (IATA, else ICAO) is the fallback for the narrow route line.
#[derive(Debug, Clone, PartialEq)]
pub struct AirportLabel {
    pub name: Option<String>,
    pub code: String,
}

/// The route line of a frame.
#[derive(Debug, Clone, PartialEq)]
pub enum Route {
    Between { origin: AirportLabel, destination: AirportLabel },
    /// Only one end of the route is known.
    Near(AirportLabel),
}

/// How many of the words `ws` an airport label keeps, having kept `k`:
/// further words are taken while fewer than three are kept and the words
/// kept, joined by single spaces, still fit in fourteen characters.
pub open spec fn kept_word_count(ws: Seq<Seq<char>>, k: nat) -> nat
    decreases AIRPORT_MAX_WORDS - k,
{
    if k < AIRPORT_MAX_WORDS && k < ws.len() && join(ws.take((k + 1) as int), seq![' ']).len()
        <= AIRPORT_MAX_CHARS {
        kept_word_count(ws, k + 1)
    } else {
        k
    }
}

/// The panel's name for an airport: its first words, kept whole, within
/// the word and character caps; an ellipsis marks a name that was cut.
pub open spec fn airport_short_name(name: Seq<char>) -> Seq<char> {
    let ws = words(name);
    let kept = join(ws.take(kept_word_count(ws, 0) as int), seq![' ']);
    if collapse(name) == kept {
        kept
    } else {
        kept.push('…')
    }
}

/// The panel's name for an airline: its words separated by single spaces,
/// cut to twenty-three characters plus an ellipsis when longer than
/// twenty-four.
pub open spec fn airline_short_name(name: Seq<char>) -> Seq<char> {
    let c = collapse(name);
    if c.len() <= AIRLINE_MAX_CHARS {
        c
    } else {
        trim_end(c.take(AIRLINE_MAX_CHARS - 1)).push('…')
    }
}

/// The trimmed name of an airport, when it has a name.
pub open spec fn short_name_of(a: AirportRef) -> Option<Seq<char>> {
    match a.name {
        Some(n) => Some(airport_short_name(n@)),
        None => None,
    }
}

/// The compact code of an airport: IATA when known, else ICAO.
pub open spec fn code_of(a: AirportRef) -> Seq<char> {
    match a.iata {
        Some(i) => i@,
        None => a.icao@,
    }
}

/// `l` is the label of airport `a`.
pub open spec fn labels(l: AirportLabel, a: AirportRef) -> bool {
    opt_string_view(l.name) == short_name_of(a) && l.code@ == code_of(a)
}

/// Format an integer with thousands separators ("34000" -> "34,000").
pub fn group_thousands(n: i64) -> (r: String)
    ensures
        r@ == grouped_decimal(n as int),
{
    let grouped = grouped_decimal_chars(n);
    string_of(&grouped)
}

/// An altitude for the panel, e.g. "34,000 ft".
pub fn altitude_text(feet: i64) -> (r: String)
    ensures
        r@ == grouped_decimal(feet as int) + " ft"@,
{
    let mut out = grouped_decimal_chars(feet);
    extend_str(&mut out, " ft");
    string_of(&out)
}

/// A ground speed for the panel, e.g. "742 km/h".
pub fn speed_text(kmh: i64) -> (r: String)
    ensures
        r@ == grouped_decimal(kmh as int) + " km/h"@,
{
    let mut out = grouped_decimal_chars(kmh);
    extend_str(&mut out, " km/h");
    string_of(&out)
}

/// Trim an airline name to the panel width, marking a cut with an ellipsis.
pub fn trim_airline(name: &str) -> (r: String)
    ensures
        r@ == airline_short_name(name@),
{
    let chars = chars_of(name);
    let collapsed = collapse_chars(&chars);
    if collapsed.len() <= AIRLINE_MAX_CHARS {
        return string_of(&collapsed);
    }
    let stem = take_chars(&collapsed, AIRLINE_MAX_CHARS - 1);
    let mut out = trim_end_chars(&stem);
    out.push('…');
    string_of(&out)
}

/// Trim an airport name for the panel: the first [`AIRPORT_MAX_WORDS`] words
/// that fit within [`AIRPORT_MAX_CHARS`] characters. Words are kept whole so
/// the city name survives; a cut is marked with an ellipsis.
pub fn trim_airport(name: &str) -> (r: String)
    ensures
        r@ == airport_short_name(name@),
{
    let chars = chars_of(name);
    let ws = split_fields(&chars, Delimiter::Whitespace);
    let ghost w = views(ws@);
    let space = vec![' '];
    assert(space@ =~= seq![' ']);
    let mut out: Vec<char> = Vec::new();
    let mut k: usize = 0;
    assert(w.take(0) =~= Seq::<Seq<char>>::empty());
    while k < AIRPORT_MAX_WORDS && k < ws.len()
        invariant
            w == views(ws@),
            w == words(name@),
            chars@ == name@,
            space@ == seq![' '],
            k <= AIRPORT_MAX_WORDS,
            k <= ws@.len(),
            out@ == join(w.take(k as int), seq![' ']),
            kept_word_count(w, 0) == kept_word_count(w, k as nat),
        ensures
            k <= ws@.len(),
            out@ == join(w.take(k as int), seq![' ']),
            kept_word_count(w, 0) == k,
        decreases AIRPORT_MAX_WORDS - k,
    {
        let mut candidate: Vec<char> = Vec::new();
        if k > 0 {
            extend_chars(&mut candidate, &out);
            candidate.push(' ');
        }
        extend_chars(&mut candidate, &ws[k]);
        proof {
            let t = w.take(k + 1);
            assert(t.drop_last() =~= w.take(k as int));
            assert(t.last() == ws@[k as int]@);
            assert(candidate@ =~= join(t, seq![' ']));
        }
        if candidate.len() > AIRPORT_MAX_CHARS {
            break;
        }
        out = candidate;
        k = k + 1;
    }
    let full = join_chars(&ws, ws.len(), &space);
    assert(w.take(ws@.len() as int) =~= w);
    if !chars_eq(&full, &out) {
        out.push('…');
    }
    string_of(&out)
}

/// The label of one airport: trimmed name and compact code.
pub fn airport_label(airport: &AirportRef) -> (r: AirportLabel)
    ensures
        labels(r, *airport),
{
    let name = match &airport.name {
        Some(n) => Some(trim_airport(n.as_str())),
        None => None,
    };
    let code = match &airport.iata {
        Some(i) => i.clone(),
        None => airport.icao.clone(),
    };
    AirportLabel { name, code }
}

/// The route line: both ends when both are known, "near" the one that is
/// known otherwise, nothing when neither is.
pub fn route_line(origin: &Option<AirportRef>, destination: &Option<AirportRef>) -> (r: Option<
    Route,
>)
    ensures
        match (*origin, *destination) {
            (Some(o), Some(d)) => match r {
                Some(Route::Between { origin: lo, destination: ld }) => labels(lo, o) && labels(
                    ld,
                    d,
                ),
                _ => false,
            },
            (Some(a), None) => match r {
                Some(Route::Near(l)) => labels(l, a),
                _ => false,
            },
            (None, Some(a)) => match r {
                Some(Route::Near(l)) => labels(l, a),
                _ => false,
            },
            (None, None) => r is None,
        },
{
    match (origin, destination) {
        (Some(o), Some(d)) => Some(
            Route::Between { origin: airport_label(o), destination: airport_label(d) },
        ),
        (Some(a), None) => Some(Route::Near(airport_label(a))),
        (None, Some(a)) => Some(Route::Near(airport_label(a))),
        (None, None) => None,
    }
}

/// An airline name as the panel shows it: never longer than the cap.
pub proof fn lemma_airline_name_fits(name: Seq<char>)
    ensures
        airline_short_name(name).len() <= AIRLINE_MAX_CHARS,
        collapse(name).len() <= AIRLINE_MAX_CHARS ==> airline_short_name(name) == collapse(name),
{
    let c = collapse(name);
    if c.len() > AIRLINE_MAX_CHARS {
        lemma_trim_end_len(c.take(AIRLINE_MAX_CHARS - 1));
    }
}

proof fn lemma_trim_end_len(s: Seq<char>)
    ensures
        trim_end(s).len() <= s.len(),
    decreases s.len(),
{
    if s.len() > 0 {
        lemma_trim_end_len(s.drop_last());
    }
}

proof fn lemma_kept_word_count_bound(ws: Seq<Seq<char>>, k: nat)
    requires
        k <= AIRPORT_MAX_WORDS,
        k <= ws.len(),
        k == 0 || join(ws.take(k as int), seq![' ']).len() <= AIRPORT_MAX_CHARS,
    ensures
        k <= kept_word_count(ws, k) <= AIRPORT_MAX_WORDS,
        kept_word_count(ws, k) <= ws.len(),
        kept_word_count(ws, k) == 0 || join(ws.take(kept_word_count(ws, k) as int), seq![' ']).len()
            <= AIRPORT_MAX_CHARS,
    decreases AIRPORT_MAX_WORDS - k,
{
    if k < AIRPORT_MAX_WORDS && k < ws.len() && join(ws.take((k + 1) as int), seq![' ']).len()
        <= AIRPORT_MAX_CHARS {
        lemma_kept_word_count_bound(ws, k + 1);
    }
}

/// An airport name as the panel shows it: at most fourteen characters of
/// whole words, plus the ellipsis when the name was cut.
pub proof fn lemma_airport_name_fits(name: Seq<char>)
    ensures
        airport_short_name(name).len() <= AIRPORT_MAX_CHARS + 1,
{
    let ws = words(name);
    lemma_kept_word_count_bound(ws, 0);
    assert(ws.take(0) =~= Seq::<Seq<char>>::empty());
}

proof fn lemma_trim_end_shape(s: Seq<char>)
    ensures
        trim_end(s).len() <= s.len(),
        trim_end(s) == s.take(trim_end(s).len() as int),
        trim_end(s).len() > 0 ==> !is_space(trim_end(s).last()),
        s.len() > 0 && !is_space(s[0]) ==> trim_end(s).len() > 0,
    decreases s.len(),
{
    if s.len() > 0 && is_space(s.last()) {
        let p = s.drop_last();
        lemma_trim_end_shape(p);
        assert(p.take(trim_end(p).len() as int) =~= s.take(trim_end(p).len() as int));
        if s.len() > 1 {
            assert(p[0] == s[0]);
        }
    } else {
        assert(s.take(s.len() as int) =~= s);
    }
}

/// Trimming an airline name that is already trimmed changes nothing.
pub proof fn lemma_airline_name_stable(name: Seq<char>)
    ensures
        airline_short_name(airline_short_name(name)) == airline_short_name(name),
{
    let c = collapse(name);
    lemma_fields_parts(name, Delimiter::Whitespace);
    lemma_join_single_spaced(words(name));
    assert(single_spaced(c));
    if c.len() <= AIRLINE_MAX_CHARS {
        lemma_collapse_single_spaced(c);
    } else {
        let stem = c.take(AIRLINE_MAX_CHARS - 1);
        let t = trim_end(stem);
        let r = t.push('…');
        assert(!is_space(c[0]));
        assert(stem[0] == c[0]);
        lemma_trim_end_shape(stem);
        assert(t.len() > 0);
        assert(!is_space('…'));
        assert forall|i: int| 0 <= i < r.len() && is_space(#[trigger] r[i]) implies r[i] == ' '
            && i > 0 && !is_space(r[i - 1]) by {
            if i < t.len() {
                assert(r[i] == t[i]);
                assert(t[i] == c[i]);
                assert(r[i - 1] == c[i - 1]);
            } else {
                assert(r[i] == '…');
            }
        }
        assert(single_spaced(r));
        lemma_collapse_single_spaced(r);
    }
}

} // verus!
