use rustisflying::airlines::{airline_name, designator};

#[test]
fn extracts_designator_from_airline_callsigns() {
    assert_eq!(designator("DAL123").as_deref(), Some("DAL"));
    assert_eq!(designator("AEE251").as_deref(), Some("AEE"));
    assert_eq!(designator("  baw16f ").as_deref(), Some("BAW")); // trimmed + uppercased
}

#[test]
fn rejects_non_airline_callsigns() {
    assert_eq!(designator("N12345"), None); // US tail number
    assert_eq!(designator("AB"), None); // too short
    assert_eq!(designator(""), None);
}

#[test]
fn looks_up_airline_names() {
    assert_eq!(airline_name("DAL123"), Some("Delta Air Lines"));
    assert_eq!(airline_name("AEE251"), Some("Aegean Airlines"));
    assert_eq!(airline_name("BAW16F"), Some("British Airways"));
    assert_eq!(airline_name("SEH8HR"), Some("Sky Express"));
    assert_eq!(airline_name("N12345"), None);
    assert_eq!(airline_name("ZZZ999"), None); // not in table
}

#[test]
fn designator_needs_three_leading_letters() {
    // Two letters then a digit: not an airline callsign.
    assert_eq!(designator("AB1"), None);
    // Exactly three letters with nothing after them.
    assert_eq!(designator("jbu").as_deref(), Some("JBU"));
    // Non-ASCII letters are not designator letters.
    assert_eq!(designator("ÄBC123"), None);
    // Unicode whitespace is trimmed too.
    assert_eq!(designator("\u{3000}\tUAL9\u{2003}").as_deref(), Some("UAL"));
    // Inner whitespace is not skipped.
    assert_eq!(designator("A BC"), None);
}

#[test]
fn designator_is_its_own_designator() {
    for callsign in ["  qtr7  ", "EZY12AB", "tui"] {
        let d = designator(callsign).unwrap();
        assert_eq!(designator(&d), Some(d.clone()));
    }
}

#[test]
fn airline_lookup_ignores_case_and_padding() {
    assert_eq!(airline_name("  dal123 "), Some("Delta Air Lines"));
    assert_eq!(airline_name("jbu5"), Some("JetBlue Airways"));
    assert_eq!(airline_name("tui12"), Some("TUI Airways"));
    assert_eq!(airline_name("AB"), None);
}
