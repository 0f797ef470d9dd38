use rustisflying::frame::{compass_points, render_closest, render_empty, ClosestScreen, Frame};
use rustisflying::layout::{altitude_text, route_line, speed_text, trim_airline, AirportLabel, Route};
use rustisflying::model::{AirportRef, CompassPoint, VerticalDirection};

/// Buffer bytes concatenated: what the panel worker compares to skip
/// unchanged frames.
fn frame_bytes(frame: &Frame) -> Vec<u8> {
    let mut v = Vec::new();
    v.extend_from_slice(frame.black.buffer());
    v.extend_from_slice(frame.chromatic.buffer());
    v
}

/// A fully populated closest-aircraft screen, worded by the library.
fn closest() -> ClosestScreen {
    ClosestScreen {
        stamp: "12:00".into(),
        callsign: "AEE166".into(),
        airline: Some(trim_airline("Aegean Airlines")),
        route: route_line(
            &Some(AirportRef {
                icao: "LGAV".into(),
                iata: Some("ATH".into()),
                name: Some("Athens International Airport".into()),
            }),
            &Some(AirportRef {
                icao: "EGLL".into(),
                iata: Some("LHR".into()),
                name: Some("London Heathrow".into()),
            }),
        ),
        altitude: Some(altitude_text(6525)),
        trend: Some(VerticalDirection::Descending),
        speed: Some(speed_text(296)),
        heading: Some(CompassPoint::Northeast),
        distance: "5.6 km away".into(),
        aircraft_type: Some("AT76".into()),
    }
}

fn empty() -> Frame {
    render_empty("12:00", "30 km of home")
}

#[test]
fn renders_both_variants_without_panicking() {
    let a = render_closest(&closest());
    let b = empty();
    assert_ne!(frame_bytes(&a), frame_bytes(&b));
}

#[test]
fn identical_ticks_render_identically() {
    let a = render_closest(&closest());
    let b = render_closest(&closest());
    assert_eq!(frame_bytes(&a), frame_bytes(&b));
}

#[test]
fn closest_uses_both_inks() {
    let planes = render_closest(&closest());
    // Set bits are white pixels: a drawn plane differs from all 0xFF.
    assert!(planes.black.buffer().iter().any(|&b| b != 0xFF));
    assert!(planes.chromatic.buffer().iter().any(|&b| b != 0xFF));
}

#[test]
fn empty_screen_is_black_only() {
    let planes = empty();
    assert!(planes.black.buffer().iter().any(|&b| b != 0xFF));
    assert!(planes.chromatic.buffer().iter().all(|&b| b == 0xFF));
}

#[test]
fn screen_positions_hold_for_full_flight() {
    let screen = ClosestScreen {
        stamp: "12:00".into(),
        callsign: "AEE166".into(),
        airline: Some("Aegean Airlines".into()),
        route: Some(Route::Between {
            origin: AirportLabel {
                name: Some("San Francisco".into()),
                code: "SFO".into(),
            },
            destination: AirportLabel {
                name: Some("Los Angeles".into()),
                code: "LAX".into(),
            },
        }),
        altitude: Some("34000 ft".into()),
        trend: Some(VerticalDirection::Ascending),
        speed: Some("742 km/h".into()),
        heading: Some(CompassPoint::Northeast),
        distance: "5.6 km away".into(),
        aircraft_type: Some("A321".into()),
    };
    let planes = render_closest(&screen);
    assert!(planes.black.buffer().iter().any(|&b| b != 0xFF));
    assert!(planes.chromatic.buffer().iter().any(|&b| b != 0xFF));
}

#[test]
fn planes_are_whole_buffers() {
    let planes = render_closest(&closest());
    assert_eq!(planes.black.buffer().len(), 5808);
    assert_eq!(planes.chromatic.buffer().len(), 5808);
}

#[test]
fn without_route_or_trend_the_red_plane_stays_white() {
    let mut screen = closest();
    screen.route = Some(Route::Near(AirportLabel { name: None, code: "BOS".into() }));
    screen.trend = Some(VerticalDirection::Level);
    let planes = render_closest(&screen);
    assert!(planes.chromatic.buffer().iter().all(|&b| b == 0xFF));
    assert!(planes.black.buffer().iter().any(|&b| b != 0xFF));
    // A climb alone brings red ink back.
    screen.trend = Some(VerticalDirection::Ascending);
    let planes = render_closest(&screen);
    assert!(planes.chromatic.buffer().iter().any(|&b| b != 0xFF));
}

#[test]
fn compass_points_round_the_heading_angle() {
    let headings = [
        CompassPoint::East,
        CompassPoint::Southeast,
        CompassPoint::South,
        CompassPoint::Southwest,
        CompassPoint::West,
        CompassPoint::Northwest,
        CompassPoint::North,
        CompassPoint::Northeast,
    ];
    for h in headings {
        let (cx, cy) = (14, 115);
        let deg = h.screen_degrees() as f32;
        let rad = deg.to_radians();
        let tip = (
            cx + (rad.cos() * 7.0).round() as i32,
            cy + (rad.sin() * 7.0).round() as i32,
        );
        let tail = (
            cx - (rad.cos() * 2.0).round() as i32,
            cy - (rad.sin() * 2.0).round() as i32,
        );
        let wing = |off: f32| {
            let r = (deg + off).to_radians();
            (tip.0 + (r.cos() * 5.0).round() as i32, tip.1 + (r.sin() * 5.0).round() as i32)
        };
        assert_eq!(compass_points(h, cx, cy), (tail, tip, wing(150.0), wing(-150.0)), "{h:?}");
    }
}
