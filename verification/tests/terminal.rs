use rustisflying::model::AirportRef;
use rustisflying::terminal::{details_line, format_airport, header_line, route_summary};

fn airport(name: Option<&str>, iata: Option<&str>) -> AirportRef {
    AirportRef {
        icao: "KBOS".into(),
        iata: iata.map(str::to_string),
        name: name.map(str::to_string),
    }
}

#[test]
fn formats_airport_variants() {
    assert_eq!(format_airport(&airport(Some("Logan International Airport"), Some("BOS"))),
        "Logan International Airport (BOS)");
    assert_eq!(format_airport(&airport(Some("Logan International Airport"), None)),
        "Logan International Airport");
    assert_eq!(format_airport(&airport(None, Some("BOS"))), "BOS (KBOS)");
    assert_eq!(format_airport(&airport(None, None)), "KBOS");
}

#[test]
fn route_summary_variants() {
    let ath = AirportRef {
        icao: "LGAV".into(),
        iata: Some("ATH".into()),
        name: Some("Athens International Airport".into()),
    };
    let ioa = airport(None, Some("IOA"));
    assert_eq!(
        route_summary(&Some(ath.clone()), &Some(ioa.clone())),
        "Athens International Airport (ATH) → IOA (KBOS)"
    );
    assert_eq!(route_summary(&None, &Some(ioa)), "near IOA (KBOS)");
    assert_eq!(route_summary(&Some(ath), &None), "near Athens International Airport (ATH)");
    assert_eq!(route_summary(&None, &None), "route unknown");
}

#[test]
fn header_and_details_lines() {
    assert_eq!(
        header_line("20:33:19", "AEE166", &Some("Aegean Airlines".into())),
        "[20:33:19] AEE166 · Aegean Airlines"
    );
    assert_eq!(header_line("20:33:19", "TEST1", &None), "[20:33:19] TEST1");
    assert_eq!(
        details_line("5.6 km away", Some(6525), Some(296), &Some("AT76".into()), &Some("SX-OBN".into())),
        "5.6 km away · 6525 ft · 296 km/h · AT76 · SX-OBN"
    );
    assert_eq!(details_line("1.0 km away", None, None, &None, &None), "1.0 km away");
    assert_eq!(details_line("2.0 km away", Some(-50), None, &None, &Some("N1".into())), "2.0 km away · -50 ft · N1");
}
