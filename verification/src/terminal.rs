//! The plain-text wording of one tick for the terminal: a header line, a
//! route line and a details line.

use vstd::prelude::*;
use crate::model::{AirportRef, opt_string_view};
use crate::number::{decimal, decimal_chars};
use crate::text::{chars_of, extend_str, join, join_chars, string_of, views};

verus! {

/// The terminal sink.
pub struct Terminal;

/// How an airport reads in the terminal: "Name (IATA)", "Name",
/// "IATA (ICAO)" or "ICAO", depending on what is known.
pub open spec fn airport_text(a: AirportRef) -> Seq<char> {
    match (a.name, a.iata) {
        (Some(name), Some(iata)) => name@ + " ("@ + iata@ + ")"@,
        (Some(name), None) => name@,
        (None, Some(iata)) => iata@ + " ("@ + a.icao@ + ")"@,
        (None, None) => a.icao@,
    }
}

/// The separator between the pieces of a line.
pub open spec fn dot_separator() -> Seq<char> {
    seq![' ', '·', ' ']
}

pub open spec fn opt_piece(o: Option<Seq<char>>) -> Seq<Seq<char>> {
    match o {
        Some(p) => seq![p],
        None => Seq::empty(),
    }
}

pub open spec fn with_unit(n: Option<i64>, unit: Seq<char>) -> Option<Seq<char>> {
    match n {
        Some(v) => Some(decimal(v as int) + unit),
        None => None,
    }
}

/// The pieces of the details line, in order.
pub open spec fn detail_pieces(
    distance: Seq<char>,
    altitude_ft: Option<i64>,
    speed_kmh: Option<i64>,
    aircraft_type: Option<Seq<char>>,
    registration: Option<Seq<char>>,
) -> Seq<Seq<char>> {
    seq![distance] + opt_piece(with_unit(altitude_ft, " ft"@)) + opt_piece(
        with_unit(speed_kmh, " km/h"@),
    ) + opt_piece(aircraft_type) + opt_piece(registration)
}

/// Format an airport for the terminal.
pub fn format_airport(airport: &AirportRef) -> (r: String)
    ensures
        r@ == airport_text(*airport),
{
    match (&airport.name, &airport.iata) {
        (Some(name), Some(iata)) => {
            let mut out = chars_of(name.as_str());
            extend_str(&mut out, " (");
            extend_str(&mut out, iata.as_str());
            extend_str(&mut out, ")");
            string_of(&out)
        },
        (Some(name), None) => name.clone(),
        (None, Some(iata)) => {
            let mut out = chars_of(iata.as_str());
            extend_str(&mut out, " (");
            extend_str(&mut out, airport.icao.as_str());
            extend_str(&mut out, ")");
            string_of(&out)
        },
        (None, None) => airport.icao.clone(),
    }
}

/// The header line: "[stamp] CALLSIGN", then " · airline" when known.
pub fn header_line(stamp: &str, callsign: &str, airline: &Option<String>) -> (r: String)
    ensures
        r@ == "["@ + stamp@ + "] "@ + callsign@ + match *airline {
            Some(a) => dot_separator() + a@,
            None => Seq::<char>::empty(),
        },
{
    let mut out: Vec<char> = Vec::new();
    extend_str(&mut out, "[");
    extend_str(&mut out, stamp);
    extend_str(&mut out, "] ");
    extend_str(&mut out, callsign);
    if let Some(a) = airline {
        extend_str(&mut out, " · ");
        extend_str(&mut out, a.as_str());
    }
    proof {
        reveal_strlit(" · ");
        assert(" · "@ =~= dot_separator());
    }
    string_of(&out)
}

/// The route line: "A → B" when both ends are known, "near A" when one
/// is, "route unknown" when neither is.
pub fn route_summary(origin: &Option<AirportRef>, destination: &Option<AirportRef>) -> (r: String)
    ensures
        r@ == match (*origin, *destination) {
            (Some(o), Some(d)) => airport_text(o) + " → "@ + airport_text(d),
            (Some(a), None) => "near "@ + airport_text(a),
            (None, Some(a)) => "near "@ + airport_text(a),
            (None, None) => "route unknown"@,
        },
{
    match (origin, destination) {
        (Some(o), Some(d)) => {
            let mut out: Vec<char> = Vec::new();
            extend_str(&mut out, format_airport(o).as_str());
            extend_str(&mut out, " → ");
            extend_str(&mut out, format_airport(d).as_str());
            string_of(&out)
        },
        (Some(a), None) => {
            let mut out: Vec<char> = Vec::new();
            extend_str(&mut out, "near ");
            extend_str(&mut out, format_airport(a).as_str());
            string_of(&out)
        },
        (None, Some(a)) => {
            let mut out: Vec<char> = Vec::new();
            extend_str(&mut out, "near ");
            extend_str(&mut out, format_airport(a).as_str());
            string_of(&out)
        },
        (None, None) => String::from_str("route unknown"),
    }
}

fn number_with_unit(n: i64, unit: &str) -> (r: Vec<char>)
    ensures
        r@ == decimal(n as int) + unit@,
{
    let mut out = decimal_chars(n);
    extend_str(&mut out, unit);
    out
}

/// The details line: the distance, then the altitude in feet, the ground
/// speed in km/h, the aircraft type and the registration, each when known,
/// separated by " · ".
pub fn details_line(
    distance: &str,
    altitude_ft: Option<i64>,
    speed_kmh: Option<i64>,
    aircraft_type: &Option<String>,
    registration: &Option<String>,
) -> (r: String)
    ensures
        r@ == join(
            detail_pieces(
                distance@,
                altitude_ft,
                speed_kmh,
                opt_string_view(*aircraft_type),
                opt_string_view(*registration),
            ),
            dot_separator(),
        ),
{
    let mut parts: Vec<Vec<char>> = Vec::new();
    parts.push(chars_of(distance));
    let ghost p0 = views(parts@);
    assert(p0 =~= seq![distance@]);
    if let Some(alt) = altitude_ft {
        parts.push(number_with_unit(alt, " ft"));
    }
    let ghost p1 = views(parts@);
    assert(p1 =~= p0 + opt_piece(with_unit(altitude_ft, " ft"@)));
    if let Some(speed) = speed_kmh {
        parts.push(number_with_unit(speed, " km/h"));
    }
    let ghost p2 = views(parts@);
    assert(p2 =~= p1 + opt_piece(with_unit(speed_kmh, " km/h"@)));
    if let Some(kind) = aircraft_type {
        parts.push(chars_of(kind.as_str()));
    }
    let ghost p3 = views(parts@);
    assert(p3 =~= p2 + opt_piece(opt_string_view(*aircraft_type)));
    if let Some(reg) = registration {
        parts.push(chars_of(reg.as_str()));
    }
    assert(views(parts@) =~= p3 + opt_piece(opt_string_view(*registration)));
    let sep = chars_of(" · ");
    proof {
        reveal_strlit(" · ");
        assert(sep@ =~= dot_separator());
    }
    let out = join_chars(&parts, parts.len(), &sep);
    assert(views(parts@).take(parts@.len() as int) =~= views(parts@));
    string_of(&out)
}

/// An airport reads as the most telling name known: its name when known,
/// followed by its IATA code in brackets when that is known too; else its
/// IATA code followed by its ICAO code in brackets; else its ICAO code.
pub proof fn lemma_airport_text(a: AirportRef)
    ensures
        a.name matches Some(n) ==> airport_text(a).take(n@.len() as int) == n@,
        a.name is Some ==> (a.iata matches Some(i) ==> airport_text(a).skip(
            airport_text(a).len() - i@.len() - 3,
        ) == " ("@ + i@ + ")"@),
        a.name is Some && a.iata is None ==> airport_text(a) == a.name->0@,
        a.name is None ==> (a.iata matches Some(i) ==> airport_text(a).take(i@.len() as int)
            == i@ && airport_text(a).skip(airport_text(a).len() - a.icao@.len() - 3) == " ("@
            + a.icao@ + ")"@),
        a.name is None && a.iata is None ==> airport_text(a) == a.icao@,
{
    reveal_strlit(" (");
    reveal_strlit(")");
    let t = airport_text(a);
    match (a.name, a.iata) {
        (Some(n), Some(i)) => {
            assert(t.take(n@.len() as int) =~= n@);
            assert(t.skip(t.len() - i@.len() - 3) =~= " ("@ + i@ + ")"@);
        },
        (None, Some(i)) => {
            assert(t.take(i@.len() as int) =~= i@);
            assert(t.skip(t.len() - a.icao@.len() - 3) =~= " ("@ + a.icao@ + ")"@);
        },
        (Some(n), None) => {
            assert(t.take(n@.len() as int) =~= n@);
        },
        _ => {},
    }
}

/// One piece for a known value, none for an unknown one.
pub open spec fn count_of<T>(o: Option<T>) -> int {
    if o is Some {
        1
    } else {
        0
    }
}

/// The details line's pieces: the distance first, then one piece for each
/// known value in the order altitude, speed, type, registration, and none
/// for an unknown one. The altitude reads as its decimal number with
/// " ft", the speed as its decimal number with " km/h", whatever else is
/// known; the type and registration read as given.
pub proof fn lemma_detail_pieces(
    distance: Seq<char>,
    altitude_ft: Option<i64>,
    speed_kmh: Option<i64>,
    aircraft_type: Option<Seq<char>>,
    registration: Option<Seq<char>>,
)
    ensures
        ({
            let p = detail_pieces(distance, altitude_ft, speed_kmh, aircraft_type, registration);
            let a = count_of(altitude_ft);
            let v = count_of(speed_kmh);
            let t = count_of(aircraft_type);
            &&& p.len() == 1 + a + v + t + count_of(registration)
            &&& p[0] == distance
            &&& altitude_ft matches Some(ft) ==> p[1] == decimal(ft as int) + " ft"@
            &&& speed_kmh matches Some(kmh) ==> p[1 + a] == decimal(kmh as int) + " km/h"@
            &&& aircraft_type matches Some(k) ==> p[1 + a + v] == k
            &&& registration matches Some(r) ==> p[1 + a + v + t] == r
        }),
{
}

} // verus!
