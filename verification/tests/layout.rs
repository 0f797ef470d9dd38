use rustisflying::layout::{
    airport_label, altitude_text, group_thousands, route_line, speed_text, trim_airline,
    trim_airport, AirportLabel, Route,
};
use rustisflying::model::AirportRef;

fn airport(name: Option<&str>, iata: Option<&str>) -> AirportRef {
    AirportRef {
        icao: "KBOS".into(),
        iata: iata.map(str::to_string),
        name: name.map(str::to_string),
    }
}

#[test]
fn trim_airport_caps_words_and_chars() {
    assert_eq!(trim_airport("Athens"), "Athens");
    // Within the cap: untouched, even at three words.
    assert_eq!(trim_airport("New York John"), "New York John");
    // Character cap drops whole words; the cut is marked.
    assert_eq!(trim_airport("Athens International Airport"), "Athens…");
    assert_eq!(trim_airport("San Francisco International"), "San Francisco…");
    assert_eq!(trim_airport("Los Angeles International"), "Los Angeles…");
    // Three-word limit beyond the character cap.
    assert_eq!(
        trim_airport("New York John F Kennedy International"),
        "New York John…"
    );
    // Whitespace runs collapse; the character cap still applies.
    assert_eq!(trim_airport("Los   Angeles  Intl"), "Los Angeles…");
}

#[test]
fn thousands_separators_group_from_the_right() {
    assert_eq!(group_thousands(0), "0");
    assert_eq!(group_thousands(6525), "6,525");
    assert_eq!(group_thousands(34000), "34,000");
    assert_eq!(group_thousands(1234567), "1,234,567");
}

#[test]
fn trim_airline_caps_with_ellipsis() {
    assert_eq!(trim_airline("Aegean Airlines"), "Aegean Airlines");
    // 23 chars fits the 24-char cap; 26 does not.
    assert_eq!(trim_airline("China Southern Airlines"), "China Southern Airlines");
    assert_eq!(
        trim_airline("Aeroflot Russian Airlines"),
        "Aeroflot Russian Airlin…"
    );
    // Whitespace runs collapse before measuring.
    assert_eq!(trim_airline("Air  France"), "Air France");
}

#[test]
fn trim_airport_edge_cases() {
    assert_eq!(trim_airport(""), "");
    assert_eq!(trim_airport("   "), "");
    // A first word longer than the cap leaves only the mark.
    assert_eq!(trim_airport("Llanfairpwllgwyngyll Airport"), "…");
    // Exactly fourteen characters fit.
    assert_eq!(trim_airport("Abcdef Ghijklm"), "Abcdef Ghijklm");
    // Leading and trailing blanks are not part of the name.
    assert_eq!(trim_airport("  Athens  "), "Athens");
    for name in ["San Francisco International", "New York John F Kennedy International", "x y z w"] {
        assert!(trim_airport(name).chars().count() <= 15);
    }
}

#[test]
fn trim_airline_cut_drops_trailing_space() {
    // The 23-character stem ends in a space, which is dropped before the mark.
    assert_eq!(
        trim_airline("Singapore Airlines Ltd Cargo"),
        "Singapore Airlines Ltd…"
    );
    assert_eq!(
        trim_airline("Swiss International Air Lines"),
        "Swiss International Air…"
    );
    assert!(trim_airline("Swiss International Air Lines").chars().count() <= 24);
    assert_eq!(trim_airline(""), "");
}

#[test]
fn grouping_handles_negative_and_extreme_numbers() {
    assert_eq!(group_thousands(999), "999");
    assert_eq!(group_thousands(1000), "1,000");
    assert_eq!(group_thousands(-1234), "-1,234");
    // The sign stands in front of the digits; only digits are grouped.
    assert_eq!(group_thousands(-123), "-123");
    assert_eq!(group_thousands(-123456), "-123,456");
    assert_eq!(group_thousands(-1), "-1");
    assert_eq!(group_thousands(i64::MIN), "-9,223,372,036,854,775,808");
    assert_eq!(group_thousands(i64::MAX), "9,223,372,036,854,775,807");
    for n in [0i64, 5, -5, 6525, 1234567, -123456, i64::MIN] {
        let grouped = group_thousands(n);
        assert_eq!(grouped.replace(',', ""), n.to_string());
        // Leading group of one to three digits, then groups of exactly three.
        let digits = grouped.trim_start_matches('-');
        let groups: Vec<&str> = digits.split(',').collect();
        assert!((1..=3).contains(&groups[0].len()));
        assert!(groups[1..].iter().all(|g| g.len() == 3));
    }
}

#[test]
fn quantities_carry_their_units() {
    assert_eq!(altitude_text(6525), "6,525 ft");
    assert_eq!(altitude_text(34000), "34,000 ft");
    assert_eq!(speed_text(296), "296 km/h");
    assert_eq!(speed_text(1234), "1,234 km/h");
    assert_eq!(altitude_text(-100), "-100 ft");
}

#[test]
fn airport_label_prefers_iata_and_trims_name() {
    let label = airport_label(&airport(Some("Athens International Airport"), Some("ATH")));
    assert_eq!(label, AirportLabel { name: Some("Athens…".into()), code: "ATH".into() });
    let label = airport_label(&airport(None, None));
    assert_eq!(label, AirportLabel { name: None, code: "KBOS".into() });
}

#[test]
fn route_line_covers_all_cases() {
    let bos = airport(None, Some("BOS"));
    let lhr = airport(Some("London Heathrow"), Some("LHR"));
    assert_eq!(route_line(&None, &None), None);
    let near = Route::Near(AirportLabel { name: None, code: "BOS".into() });
    assert_eq!(route_line(&Some(bos.clone()), &None), Some(near.clone()));
    assert_eq!(route_line(&None, &Some(bos.clone())), Some(near));
    assert_eq!(
        route_line(&Some(bos), &Some(lhr)),
        Some(Route::Between {
            origin: AirportLabel { name: None, code: "BOS".into() },
            destination: AirportLabel { name: Some("London…".into()), code: "LHR".into() },
        })
    );
}

#[test]
fn trimming_an_airline_twice_changes_nothing() {
    for name in [
        "Aegean Airlines",
        "Aeroflot Russian Airlines",
        "Singapore Airlines Ltd Cargo",
        "  Air \t France  ",
        "",
        "Swiss International Air Lines",
    ] {
        let once = trim_airline(name);
        assert_eq!(trim_airline(&once), once);
    }
}
