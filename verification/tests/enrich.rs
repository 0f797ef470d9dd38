use rustisflying::enrich::{
    callsign_for, identify, route_legs, Answer, Enricher, Lookup, Resolution,
};
use rustisflying::model::AirportRef;
use rustisflying::hexdb::AirportInfo;

#[test]
fn callsign_is_trimmed_or_falls_back_to_hex() {
    assert_eq!(callsign_for(&Some("AEE251  ".into()), "4691c7"), "AEE251");
    assert_eq!(callsign_for(&Some("   ".into()), "4691c7"), "4691C7");
    assert_eq!(callsign_for(&None, "4691c7"), "4691C7");
}

#[test]
fn route_legs_take_first_and_last() {
    assert_eq!(route_legs("LGAV-LGIO"), (Some("LGAV".into()), Some("LGIO".into())));
    assert_eq!(route_legs("EGPH-KJFK-KBOS"), (Some("EGPH".into()), Some("KBOS".into())));
    assert_eq!(route_legs("-LGAV--"), (Some("LGAV".into()), None));
    assert_eq!(route_legs(""), (None, None));
    assert_eq!(route_legs("---"), (None, None));
}

#[test]
fn fetched_routes_are_remembered() {
    let mut e = Enricher::new(true);
    match e.route_lookup("AEE251") {
        Lookup::Fetch(key) => assert_eq!(key, "AEE251"),
        Lookup::Known(_) => panic!("nothing is known yet"),
    }
    assert_eq!(e.route_fetched("AEE251", Ok(Some("LGAV-LGIO".into()))), Some("LGAV-LGIO".into()));
    match e.route_lookup("AEE251") {
        Lookup::Known(route) => assert_eq!(route.as_deref(), Some("LGAV-LGIO")),
        Lookup::Fetch(_) => panic!("the route was already fetched"),
    }
    // A failed fetch is remembered as unknown.
    assert_eq!(e.route_fetched("DAL1", Err(())), None);
    assert!(matches!(e.route_lookup("DAL1"), Lookup::Known(None)));
}

#[test]
fn fetched_airports_are_remembered_by_upper_case_code() {
    let mut e = Enricher::new(true);
    let key = match e.airport_lookup("lgav") {
        Lookup::Fetch(key) => key,
        Lookup::Known(_) => panic!("nothing is known yet"),
    };
    assert_eq!(key, "LGAV");
    let info = AirportInfo {
        icao: "lgav".into(),
        iata: Some("ATH".into()),
        airport: Some("Athens International Airport".into()),
    };
    let airport = e.airport_fetched(&key, Ok(Some(info))).unwrap();
    assert_eq!(airport.icao, "LGAV");
    assert_eq!(airport.iata.as_deref(), Some("ATH"));
    match e.airport_lookup("LGAV") {
        Lookup::Known(Some(a)) => assert_eq!(a, airport),
        _ => panic!("the airport was already fetched"),
    }
    assert_eq!(e.airport_fetched("ZZZZ", Ok(None)), None);
    assert!(matches!(e.airport_lookup("zzzz"), Lookup::Known(None)));
}

#[test]
fn without_a_client_nothing_is_fetched() {
    let mut e = Enricher::new(false);
    assert!(matches!(e.route_lookup("AEE251"), Lookup::Known(None)));
    assert!(matches!(e.airport_lookup("LGAV"), Lookup::Known(None)));
}

#[test]
fn identity_names_callsign_airline_and_route_need() {
    let id = identify(&Some("AEE166  ".into()), "4691c7");
    assert_eq!(id.callsign, "AEE166");
    assert_eq!(id.airline, Some("Aegean Airlines"));
    assert!(id.looks_up_route);
    let id = identify(&None, "4691c7");
    assert_eq!(id.callsign, "4691C7");
    assert_eq!(id.airline, None);
    assert!(!id.looks_up_route);
    // A blank filed callsign still asks for a route, under the hex address.
    let id = identify(&Some("   ".into()), "abc123");
    assert_eq!(id.callsign, "ABC123");
    assert_eq!(id.airline, None);
    assert!(id.looks_up_route);
}

fn airport(icao: &str) -> Option<AirportRef> {
    Some(AirportRef { icao: icao.into(), iata: None, name: None })
}

#[test]
fn resolution_asks_for_route_then_origin_then_destination() {
    let identity = identify(&Some("AEE251 ".into()), "4691c7");
    let step = Resolution::start(&identity);
    assert_eq!(step, Resolution::Route { callsign: "AEE251".into() });
    let step = step.answer(Answer::Route(Some("LGAV-LGTS-LGIO".into())));
    assert_eq!(
        step,
        Resolution::Origin { icao: "LGAV".into(), destination: Some("LGIO".into()) }
    );
    let step = step.answer(Answer::Airport(airport("LGAV")));
    assert_eq!(step, Resolution::Destination { origin: airport("LGAV"), icao: "LGIO".into() });
    let step = step.answer(Answer::Airport(None));
    assert_eq!(step, Resolution::Done { origin: airport("LGAV"), destination: None });
}

#[test]
fn resolution_short_cuts() {
    // No filed callsign: nothing to look up.
    let hex_only = identify(&None, "4691c7");
    assert_eq!(
        Resolution::start(&hex_only),
        Resolution::Done { origin: None, destination: None }
    );
    // No route, or a route without codes: done with both ends unknown.
    let none = Resolution::Route { callsign: "AEE251".into() }.answer(Answer::Route(None));
    assert_eq!(none, Resolution::Done { origin: None, destination: None });
    let blank = Resolution::from_route(&Some("--".into()));
    assert_eq!(blank, Resolution::Done { origin: None, destination: None });
    // A single leg: only the origin is looked up.
    let single = Resolution::from_route(&Some("LGAV".into()));
    assert_eq!(single, Resolution::Origin { icao: "LGAV".into(), destination: None });
    assert_eq!(
        single.answer(Answer::Airport(airport("LGAV"))),
        Resolution::Done { origin: airport("LGAV"), destination: None }
    );
    // An answer of the wrong kind changes nothing.
    let waiting = Resolution::Route { callsign: "AEE251".into() };
    assert_eq!(
        waiting.answer(Answer::Airport(airport("LGAV"))),
        Resolution::Route { callsign: "AEE251".into() }
    );
}
