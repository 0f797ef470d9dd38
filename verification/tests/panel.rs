use rustisflying::layout::AirportLabel;
use rustisflying::model::{CompassPoint, VerticalDirection};
use rustisflying::panel::{
    altitude_speed_line, heading_distance_line, label_text, near_text, route_labels,
    route_labels_for_widths, shows_trend, altitude_speed_x, heading_distance_x, route_positions,
    stamp_x,
    trend_triangle,
};

#[test]
fn long_route_names_fall_back_to_codes() {
    let origin = AirportLabel {
        name: Some("San Francisco".into()),
        code: "SFO".into(),
    };
    let destination = AirportLabel {
        name: Some("Los Angeles".into()),
        code: "LAX".into(),
    };
    // Short names are used as-is.
    assert_eq!(route_labels(&origin, &destination), ("San Francisco".into(), "Los Angeles".into()));
    // Overlong names fall back to the codes for both ends.
    let long = AirportLabel {
        name: Some("International Falls".into()),
        code: "INL".into(),
    };
    assert_eq!(route_labels(&long, &long), ("INL".into(), "INL".into()));
}

#[test]
fn route_labels_without_both_names_use_each_label() {
    let named = AirportLabel { name: Some("Athens…".into()), code: "ATH".into() };
    let coded = AirportLabel { name: None, code: "LHR".into() };
    assert_eq!(route_labels(&named, &coded), ("Athens…".into(), "LHR".into()));
    assert_eq!(label_text(&coded), "LHR");
    assert_eq!(near_text(&named), "near Athens…");
}

#[test]
fn detail_lines_join_known_parts() {
    let alt = Some("6,525 ft".to_string());
    let speed = Some("296 km/h".to_string());
    assert_eq!(altitude_speed_line(&alt, &speed).as_deref(), Some("6,525 ft · 296 km/h"));
    assert_eq!(altitude_speed_line(&None, &speed).as_deref(), Some("296 km/h"));
    assert_eq!(altitude_speed_line(&alt, &None).as_deref(), Some("6,525 ft"));
    assert_eq!(altitude_speed_line(&None, &None), None);
    assert_eq!(
        heading_distance_line(Some(CompassPoint::Northeast), "5.6 km away"),
        "NE · 5.6 km away"
    );
    assert_eq!(heading_distance_line(None, "5.6 km away"), "5.6 km away");
}

#[test]
fn trend_marker_only_for_climbs_and_descents_with_altitude() {
    let alt = Some("6,525 ft".to_string());
    assert!(shows_trend(&alt, Some(VerticalDirection::Ascending)));
    assert!(shows_trend(&alt, Some(VerticalDirection::Descending)));
    assert!(!shows_trend(&alt, Some(VerticalDirection::Level)));
    assert!(!shows_trend(&alt, None));
    assert!(!shows_trend(&None, Some(VerticalDirection::Ascending)));
}

#[test]
fn trend_triangle_points_the_right_way() {
    assert_eq!(
        trend_triangle(VerticalDirection::Ascending, 8, 86),
        ((8, 97), (17, 97), (12, 88))
    );
    assert_eq!(
        trend_triangle(VerticalDirection::Descending, 8, 86),
        ((8, 88), (17, 88), (12, 97))
    );
}

#[test]
fn route_labels_follow_the_measured_widths() {
    let a = AirportLabel { name: Some("Athens".into()), code: "ATH".into() };
    let b = AirportLabel { name: Some("Ioannina".into()), code: "IOA".into() };
    // 8 + 100 + 21 + 127 + 8 = 264: exactly the panel width still fits.
    assert_eq!(route_labels_for_widths(&a, &b, 100, 127), ("Athens".into(), "Ioannina".into()));
    assert_eq!(route_labels_for_widths(&a, &b, 100, 128), ("ATH".into(), "IOA".into()));
    let coded = AirportLabel { name: None, code: "IOA".into() };
    assert_eq!(route_labels_for_widths(&a, &coded, 1000, 1000), ("Athens".into(), "IOA".into()));
}

#[test]
fn panel_positions() {
    // "12:00" in 9 pt: 5 glyphs of 6 px, right-aligned against the margin.
    assert_eq!(stamp_x("12:00"), 264 - 8 - 30);
    // "ATH" in 12 pt is 23 px wide: arrow at 8 + 23 + 2, label 19 px later.
    assert_eq!(route_positions("ATH"), (33, 52));
    assert_eq!(route_positions(""), (10, 29));
    assert_eq!(altitude_speed_x(true), 22);
    assert_eq!(altitude_speed_x(false), 8);
    assert_eq!(heading_distance_x(true), 24);
    assert_eq!(heading_distance_x(false), 8);
}

#[test]
fn a_trailing_carriage_return_is_not_measured() {
    // Fourteen 12 pt glyphs are 111 px: 8 + 111 + 21 + 111 + 8 = 259 fits,
    // the '\r' adding nothing.
    let a = AirportLabel { name: Some("AAAAAAAAAAAAAA\r".into()), code: "AAA".into() };
    let b = AirportLabel { name: Some("BBBBBBBBBBBBBB\r".into()), code: "BBB".into() };
    assert_eq!(
        route_labels(&a, &b),
        ("AAAAAAAAAAAAAA\r".into(), "BBBBBBBBBBBBBB\r".into())
    );
    // A fifteenth glyph (119 px each, 275 in all) no longer fits.
    let c = AirportLabel { name: Some("AAAAAAAAAAAAAAA".into()), code: "AAA".into() };
    let d = AirportLabel { name: Some("BBBBBBBBBBBBBBB".into()), code: "BBB".into() };
    assert_eq!(route_labels(&c, &d), ("AAA".into(), "BBB".into()));
    assert_eq!(stamp_x("12:00\r"), 226);
    assert_eq!(route_positions("A\r"), (17, 36));
    assert_eq!(route_positions("\r"), (10, 29));
}

#[test]
fn the_widest_line_sets_the_width() {
    // "AB" is 15 px, "ABC" 23 px: the arrow follows the wider line.
    assert_eq!(route_positions("AB\nABC"), (33, 52));
    assert_eq!(route_positions("ABC\r\nAB"), (33, 52));
    assert_eq!(stamp_x("1\n12:00"), 226);
}
