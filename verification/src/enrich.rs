//! Enrichment decisions: which callsign names an aircraft, which airports
//! a filed route connects, and when a route or airport must be looked up
//! rather than answered from what was already learned.
//!
//! All enrichment is best-effort: anything unknown degrades to `None`.
//! Answers are remembered per callsign / ICAO code for the lifetime of the
//! enricher, so the same flight seen again costs no lookup. The lookups
//! themselves are made by the caller: a lookup step says either what is
//! already known or what must be fetched, and the caller hands the fetched
//! result back.

use vstd::prelude::*;
use vstd::hash_map::StringHashMap;
use crate::airlines::{airline_name, airline_of};
use crate::hexdb::AirportInfo;
use crate::model::{AirportRef, copy_opt_airport, copy_opt_string, opt_string_view};
use crate::text::{
    Delimiter, ascii_upper_seq, chars_of, chars_to_ascii_upper, fields, split_fields, string_of,
    trim, trim_chars,
};

verus! {

/// What `str::to_uppercase` makes of a string (full Unicode case mapping).
pub uninterp spec fn unicode_uppercase(s: Seq<char>) -> Seq<char>;

/// `str::to_uppercase`. The contract names the result: it depends on the
/// string alone.
#[verifier::external_body]
fn to_uppercase(s: &str) -> (r: String)
    ensures
        r@ == unicode_uppercase(s@),
{
    s.to_uppercase()
}

/// The callsign an aircraft is shown under: the filed callsign without its
/// padding, or, when none was filed or it is blank, the upper-cased ICAO
/// hex address.
pub open spec fn callsign_of(flight: Option<Seq<char>>, hex: Seq<char>) -> Seq<char> {
    match flight {
        Some(f) => if trim(f).len() > 0 {
            trim(f)
        } else {
            unicode_uppercase(hex)
        },
        None => unicode_uppercase(hex),
    }
}

/// The callsign an aircraft is shown under (the feed pads callsigns with
/// spaces; when absent, fall back to the hex address).
pub fn callsign_for(flight: &Option<String>, hex: &str) -> (r: String)
    ensures
        r@ == callsign_of(opt_string_view(*flight), hex@),
{
    if let Some(f) = flight {
        let chars = chars_of(f.as_str());
        let t = trim_chars(&chars);
        if t.len() > 0 {
            return string_of(&t);
        }
    }
    to_uppercase(hex)
}

/// Who an aircraft is: the callsign it is shown under, the airline that
/// callsign belongs to, and whether its route is worth looking up (only
/// for a filed callsign, not for the hex fallback).
pub struct FlightIdentity {
    pub callsign: String,
    pub airline: Option<&'static str>,
    pub looks_up_route: bool,
}

/// Identify an aircraft from its filed callsign (if any) and hex address.
pub fn identify(flight: &Option<String>, hex: &str) -> (r: FlightIdentity)
    ensures
        r.callsign@ == callsign_of(opt_string_view(*flight), hex@),
        r.airline == airline_of(r.callsign@),
        r.looks_up_route == flight is Some,
{
    let callsign = callsign_for(flight, hex);
    let airline = airline_name(callsign.as_str());
    FlightIdentity { callsign, airline, looks_up_route: flight.is_some() }
}

/// The airports a filed route names at its ends: the first and the last of
/// its non-empty `-`-separated legs (the first alone when there is one).
pub open spec fn route_ends(route: Seq<char>) -> (Option<Seq<char>>, Option<Seq<char>>) {
    let legs = fields(route, Delimiter::Dash);
    if legs.len() == 0 {
        (None, None)
    } else if legs.len() == 1 {
        (Some(legs[0]), None)
    } else {
        (Some(legs[0]), Some(legs.last()))
    }
}

/// Split a route such as `"LGAV-LGIO"` into the ICAO codes at its ends.
pub fn route_legs(route: &str) -> (r: (Option<String>, Option<String>))
    ensures
        (opt_string_view(r.0), opt_string_view(r.1)) == route_ends(route@),
{
    let chars = chars_of(route);
    let legs = split_fields(&chars, Delimiter::Dash);
    let n = legs.len();
    if n == 0 {
        (None, None)
    } else if n == 1 {
        (Some(string_of(&legs[0])), None)
    } else {
        (Some(string_of(&legs[0])), Some(string_of(&legs[n - 1])))
    }
}

/// The result of one lookup step.
pub enum Lookup<V> {
    /// The answer is already known.
    Known(V),
    /// The answer must be fetched under this key and handed back.
    Fetch(String),
}

/// Turns raw enrichment lookups into remembered answers.
pub struct Enricher {
    lookups_enabled: bool,
    routes: StringHashMap<Option<String>>,
    airports: StringHashMap<Option<AirportRef>>,
}

/// The key airports are remembered under: the ICAO code, ASCII upper-cased.
pub open spec fn airport_key(icao: Seq<char>) -> Seq<char> {
    ascii_upper_seq(icao)
}

impl Enricher {
    /// Whether lookups can be made at all (a client for the metadata
    /// service is configured).
    pub closed spec fn lookups_enabled(&self) -> bool {
        self.lookups_enabled
    }

    /// The remembered routes, by callsign.
    pub closed spec fn known_routes(&self) -> Map<Seq<char>, Option<String>> {
        self.routes@
    }

    /// The remembered airports, by upper-cased ICAO code.
    pub closed spec fn known_airports(&self) -> Map<Seq<char>, Option<AirportRef>> {
        self.airports@
    }

    /// What a route lookup for `callsign` can answer without fetching:
    /// the remembered route, or "unknown" when lookups are disabled; `None`
    /// when it must be fetched.
    pub open spec fn route_answer(&self, callsign: Seq<char>) -> Option<Option<String>> {
        if self.known_routes().contains_key(callsign) {
            Some(self.known_routes()[callsign])
        } else if !self.lookups_enabled() {
            Some(None)
        } else {
            None
        }
    }

    /// What an airport lookup under `key` can answer without fetching.
    pub open spec fn airport_answer(&self, key: Seq<char>) -> Option<Option<AirportRef>> {
        if self.known_airports().contains_key(key) {
            Some(self.known_airports()[key])
        } else if !self.lookups_enabled() {
            Some(None)
        } else {
            None
        }
    }

    /// An enricher that has learned nothing yet. With `lookups_enabled`
    /// false every lookup answers "unknown" without asking to fetch.
    pub fn new(lookups_enabled: bool) -> (r: Self)
        ensures
            r.lookups_enabled() == lookups_enabled,
            r.known_routes() == Map::<Seq<char>, Option<String>>::empty(),
            r.known_airports() == Map::<Seq<char>, Option<AirportRef>>::empty(),
    {
        Enricher { lookups_enabled, routes: StringHashMap::new(), airports: StringHashMap::new() }
    }

    /// One route lookup step for `callsign`: the remembered route if there
    /// is one; "unknown" (remembered as such) when lookups are disabled;
    /// otherwise a request to fetch it.
    pub fn route_lookup(&mut self, callsign: &str) -> (r: Lookup<Option<String>>)
        ensures
            final(self).lookups_enabled() == old(self).lookups_enabled(),
            final(self).known_airports() == old(self).known_airports(),
            match old(self).route_answer(callsign@) {
                Some(v) => r == Lookup::<Option<String>>::Known(v) && final(self).known_routes()
                    == old(self).known_routes().insert(callsign@, v),
                None => (r matches Lookup::Fetch(k) && k@ == callsign@) && final(self).known_routes()
                    == old(self).known_routes(),
            },
    {
        match self.routes.get(callsign) {
            Some(v) => {
                let answer = copy_opt_string(v);
                proof {
                    assert(self.routes@.insert(callsign@, answer) =~= self.routes@);
                }
                Lookup::Known(answer)
            },
            None => {
                if !self.lookups_enabled {
                    self.routes.insert(String::from_str(callsign), None);
                    Lookup::Known(None)
                } else {
                    Lookup::Fetch(String::from_str(callsign))
                }
            },
        }
    }

    /// Hand back the result of fetching the route of `callsign`; a failed
    /// fetch (`Err`) counts as "unknown". The answer is remembered and
    /// returned.
    pub fn route_fetched(&mut self, callsign: &str, fetched: Result<Option<String>, ()>) -> (r:
        Option<String>)
        ensures
            r == match fetched {
                Ok(v) => v,
                Err(_) => None,
            },
            final(self).lookups_enabled() == old(self).lookups_enabled(),
            final(self).known_airports() == old(self).known_airports(),
            final(self).known_routes() == old(self).known_routes().insert(callsign@, r),
    {
        let route = match fetched {
            Ok(v) => v,
            Err(_) => None,
        };
        self.routes.insert(String::from_str(callsign), copy_opt_string(&route));
        route
    }

    /// One airport lookup step for `icao`, remembered under its upper-cased
    /// code: the remembered airport if there is one; "unknown" (remembered
    /// as such) when lookups are disabled; otherwise a request to fetch it
    /// under the upper-cased code.
    pub fn airport_lookup(&mut self, icao: &str) -> (r: Lookup<Option<AirportRef>>)
        ensures
            final(self).lookups_enabled() == old(self).lookups_enabled(),
            final(self).known_routes() == old(self).known_routes(),
            match old(self).airport_answer(airport_key(icao@)) {
                Some(v) => r == Lookup::<Option<AirportRef>>::Known(v)
                    && final(self).known_airports() == old(self).known_airports().insert(
                    airport_key(icao@),
                    v,
                ),
                None => (r matches Lookup::Fetch(k) && k@ == airport_key(icao@))
                    && final(self).known_airports() == old(self).known_airports(),
            },
    {
        let code = chars_of(icao);
        let key = string_of(&chars_to_ascii_upper(&code));
        match self.airports.get(key.as_str()) {
            Some(v) => {
                let answer = copy_opt_airport(v);
                proof {
                    assert(self.airports@.insert(key@, answer) =~= self.airports@);
                }
                Lookup::Known(answer)
            },
            None => {
                if !self.lookups_enabled {
                    self.airports.insert(key, None);
                    Lookup::Known(None)
                } else {
                    Lookup::Fetch(key)
                }
            },
        }
    }

    /// Hand back the result of fetching the airport remembered under `key`;
    /// a failed fetch (`Err`) or an unknown airport counts as "unknown". A
    /// known airport keeps its IATA code and name, and its ICAO code is
    /// ASCII upper-cased. The answer is remembered and returned.
    pub fn airport_fetched(&mut self, key: &str, fetched: Result<Option<AirportInfo>, ()>) -> (r:
        Option<AirportRef>)
        ensures
            match fetched {
                Ok(Some(info)) => r matches Some(a) && a.icao@ == ascii_upper_seq(info.icao@)
                    && a.iata == info.iata && a.name == info.airport,
                _ => r is None,
            },
            final(self).lookups_enabled() == old(self).lookups_enabled(),
            final(self).known_routes() == old(self).known_routes(),
            final(self).known_airports() == old(self).known_airports().insert(key@, r),
    {
        let airport = match fetched {
            Ok(Some(info)) => {
                let code = chars_of(info.icao.as_str());
                let icao = string_of(&chars_to_ascii_upper(&code));
                Some(AirportRef { icao, iata: info.iata, name: info.airport })
            },
            _ => None,
        };
        self.airports.insert(String::from_str(key), copy_opt_airport(&airport));
        airport
    }
}

/// How far resolving one aircraft's route has come. A route is asked for
/// first; then the airport at its first leg, then the one at its last leg.
/// Each state says what it waits for; [`Resolution::answer`] takes the
/// answer and gives the next state.
#[derive(Debug, PartialEq, Eq)]
pub enum Resolution {
    /// The route filed under `callsign` is wanted.
    Route { callsign: String },
    /// The origin airport `icao` is wanted; `destination` is the code of the
    /// route's other end, when it names one.
    Origin { icao: String, destination: Option<String> },
    /// The destination airport `icao` is wanted; the origin is settled.
    Destination { origin: Option<AirportRef>, icao: String },
    /// Both ends are settled.
    Done { origin: Option<AirportRef>, destination: Option<AirportRef> },
}

/// An answer to what a [`Resolution`] waits for.
#[derive(Debug)]
pub enum Answer {
    /// The route found for the callsign, if any.
    Route(Option<String>),
    /// The airport found for the code, if any.
    Airport(Option<AirportRef>),
}

/// `r` is where a resolution stands once the route is known to be `route`:
/// waiting for the origin when the route names one, else for the
/// destination when it names one, else done with both ends unknown.
pub open spec fn starts_from_route(route: Option<Seq<char>>, r: Resolution) -> bool {
    let ends = match route {
        Some(text) => route_ends(text),
        None => (None, None),
    };
    match ends {
        (Some(o), d) => r matches Resolution::Origin { icao, destination } && icao@ == o
            && opt_string_view(destination) == d,
        (None, Some(d)) => r matches Resolution::Destination { origin, icao } && origin is None
            && icao@ == d,
        (None, None) => r matches Resolution::Done { origin, destination } && origin is None
            && destination is None,
    }
}

/// One step of a resolution: `r` is what `s` becomes on `answer`. A route
/// answers a wait for the route; an airport answers a wait for the origin
/// (then the destination is waited for, if there is one) or for the
/// destination (then both ends are settled). Any other answer changes
/// nothing.
pub open spec fn steps_to(s: Resolution, answer: Answer, r: Resolution) -> bool {
    match (s, answer) {
        (Resolution::Route { .. }, Answer::Route(route)) => starts_from_route(
            opt_string_view(route),
            r,
        ),
        (Resolution::Origin { destination, .. }, Answer::Airport(a)) => match destination {
            Some(d) => r == (Resolution::Destination { origin: a, icao: d }),
            None => r == (Resolution::Done { origin: a, destination: None }),
        },
        (Resolution::Destination { origin, .. }, Answer::Airport(a)) => r == (Resolution::Done {
            origin,
            destination: a,
        }),
        _ => r == s,
    }
}

/// Whether `answer` is the kind of answer `s` waits for.
pub open spec fn awaits(s: Resolution, answer: Answer) -> bool {
    match (s, answer) {
        (Resolution::Route { .. }, Answer::Route(_)) => true,
        (Resolution::Origin { .. }, Answer::Airport(_)) => true,
        (Resolution::Destination { .. }, Answer::Airport(_)) => true,
        _ => false,
    }
}

/// At most how many more lookups a resolution makes.
pub open spec fn lookups_left(s: Resolution) -> nat {
    match s {
        Resolution::Route { .. } => 3,
        Resolution::Origin { destination, .. } => if destination is Some {
            2
        } else {
            1
        },
        Resolution::Destination { .. } => 1,
        Resolution::Done { .. } => 0,
    }
}

impl Resolution {
    /// Where resolving `identity`'s route starts: with the route when it is
    /// worth looking up, else done with both ends unknown.
    pub fn start(identity: &FlightIdentity) -> (r: Resolution)
        ensures
            identity.looks_up_route ==> (r matches Resolution::Route { callsign }
                && callsign@ == identity.callsign@),
            !identity.looks_up_route ==> (r matches Resolution::Done { origin, destination }
                && origin is None && destination is None),
    {
        if identity.looks_up_route {
            Resolution::Route { callsign: String::from_str(identity.callsign.as_str()) }
        } else {
            Resolution::Done { origin: None, destination: None }
        }
    }

    /// Where a resolution stands once its route is known.
    pub fn from_route(route: &Option<String>) -> (r: Resolution)
        ensures
            starts_from_route(opt_string_view(*route), r),
    {
        let (first, last) = match route {
            Some(text) => route_legs(text.as_str()),
            None => (None, None),
        };
        match first {
            Some(icao) => Resolution::Origin { icao, destination: last },
            None => match last {
                Some(icao) => Resolution::Destination { origin: None, icao },
                None => Resolution::Done { origin: None, destination: None },
            },
        }
    }

    /// The next state on `answer`.
    pub fn answer(self, answer: Answer) -> (r: Resolution)
        ensures
            steps_to(self, answer, r),
    {
        match (self, answer) {
            (Resolution::Route { .. }, Answer::Route(route)) => Resolution::from_route(&route),
            (Resolution::Origin { destination, .. }, Answer::Airport(a)) => match destination {
                Some(d) => Resolution::Destination { origin: a, icao: d },
                None => Resolution::Done { origin: a, destination: None },
            },
            (Resolution::Destination { origin, .. }, Answer::Airport(a)) => Resolution::Done {
                origin,
                destination: a,
            },
            (s, _) => s,
        }
    }
}

/// Every awaited answer brings a resolution closer to done, so no aircraft
/// costs more than three lookups (its route and the airports at the
/// route's two ends), and a done resolution asks for nothing.
pub proof fn lemma_resolution_progresses(s: Resolution, answer: Answer, r: Resolution)
    requires
        steps_to(s, answer, r),
    ensures
        awaits(s, answer) ==> lookups_left(r) < lookups_left(s),
        !awaits(s, answer) ==> r == s,
        s is Done ==> !awaits(s, answer),
        lookups_left(s) <= 3,
{
}

/// The airports of a filed route are asked for in order, origin first: once
/// the route `"A-…-B"` is known, the origin `A` is waited for and the code
/// `B` is kept for later; the airport then found settles the origin, and
/// the one found after it settles the destination.
pub proof fn lemma_origin_then_destination(
    route: Seq<char>,
    s1: Resolution,
    a: Option<AirportRef>,
    s2: Resolution,
    b: Option<AirportRef>,
    s3: Resolution,
)
    requires
        route_ends(route).0 is Some,
        route_ends(route).1 is Some,
        starts_from_route(Some(route), s1),
        steps_to(s1, Answer::Airport(a), s2),
        steps_to(s2, Answer::Airport(b), s3),
    ensures
        s1 matches Resolution::Origin { icao, .. } && icao@ == route_ends(route).0->0,
        s2 matches Resolution::Destination { origin, icao } && origin == a && icao@ == route_ends(
            route,
        ).1->0,
        s3 == (Resolution::Done { origin: a, destination: b }),
{
}

/// Whatever was fetched for a callsign is what every later lookup of it
/// answers, without fetching again.
pub proof fn lemma_fetched_route_is_remembered(
    before: Enricher,
    after: Enricher,
    callsign: Seq<char>,
    route: Option<String>,
)
    requires
        after.known_routes() == before.known_routes().insert(callsign, route),
    ensures
        after.route_answer(callsign) == Some(route),
{
}

/// Whatever was fetched for an airport is what every later lookup under
/// its key answers, without fetching again.
pub proof fn lemma_fetched_airport_is_remembered(
    before: Enricher,
    after: Enricher,
    key: Seq<char>,
    airport: Option<AirportRef>,
)
    requires
        after.known_airports() == before.known_airports().insert(key, airport),
    ensures
        after.airport_answer(key) == Some(airport),
{
}

/// A lookup step never changes an answer that was already available: once
/// answered, the same callsign keeps getting the same answer.
pub proof fn lemma_route_answer_is_stable(
    before: Enricher,
    after: Enricher,
    callsign: Seq<char>,
    other: Seq<char>,
)
    requires
        before.route_answer(callsign) is Some,
        after.lookups_enabled() == before.lookups_enabled(),
        after.known_routes() == before.known_routes().insert(
            callsign,
            before.route_answer(callsign)->0,
        ),
    ensures
        after.route_answer(callsign) == before.route_answer(callsign),
        before.route_answer(other) is Some ==> after.route_answer(other) == before.route_answer(
            other,
        ),
{
}

/// Without a metadata client nothing is ever fetched: every route and
/// airport lookup is answered on the spot.
pub proof fn lemma_no_client_never_fetches(e: Enricher, callsign: Seq<char>, key: Seq<char>)
    requires
        !e.lookups_enabled(),
    ensures
        e.route_answer(callsign) is Some,
        e.airport_answer(key) is Some,
{
}

} // verus!
