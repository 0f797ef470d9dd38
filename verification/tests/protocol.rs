use std::cmp::Ordering;
use rustisflying::config::{Api, Polling};
use rustisflying::geo::closest_index;
use rustisflying::hexdb::{airport_url, classify_status, route_url, trim_base_url, StatusKind};

#[test]
fn statuses_classify() {
    assert_eq!(classify_status(404), StatusKind::NotFound);
    assert_eq!(classify_status(200), StatusKind::Success);
    assert_eq!(classify_status(299), StatusKind::Success);
    assert_eq!(classify_status(300), StatusKind::Failure);
    assert_eq!(classify_status(500), StatusKind::Failure);
    assert_eq!(classify_status(199), StatusKind::Failure);
}

#[test]
fn urls_are_built_from_a_trimmed_base() {
    assert_eq!(trim_base_url("https://hexdb.io///"), "https://hexdb.io");
    assert_eq!(trim_base_url("https://hexdb.io"), "https://hexdb.io");
    assert_eq!(trim_base_url("/"), "");
    assert_eq!(route_url("https://hexdb.io", "AEE251"), "https://hexdb.io/api/v1/route/icao/AEE251");
    assert_eq!(airport_url("https://hexdb.io", "LGAV"), "https://hexdb.io/api/v1/airport/icao/LGAV");
}

#[test]
fn defaults_and_interval_floor() {
    let api = Api::default();
    assert_eq!(api.adsb_base_url, "https://api.adsb.lol");
    assert_eq!(api.hexdb_base_url, "https://hexdb.io");
    let polling = Polling::default();
    assert_eq!(polling.interval_seconds, 15);
    assert_eq!(polling.effective_interval_seconds(), 15);
    assert_eq!(Polling { interval_seconds: 1 }.effective_interval_seconds(), 5);
    assert_eq!(Polling { interval_seconds: 5 }.effective_interval_seconds(), 5);
}

#[test]
fn closest_index_picks_first_minimum() {
    assert_eq!(closest_index(&[]), None);
    assert_eq!(closest_index(&[7]), Some(0));
    assert_eq!(closest_index(&[5, 2, 9, 2]), Some(1));
    assert_eq!(closest_index(&[i64::MIN, i64::MIN]), Some(0));
}

#[test]
fn order_keys_follow_total_cmp() {
    let values = [
        -f64::INFINITY, -1.5, -0.0, 0.0, 1e-300, 0.5, 5.6, 11.0, 20015.0, f64::INFINITY, f64::NAN,
    ];
    for a in values {
        for b in values {
            let ka = rustisflying::geo::order_key(a.to_bits());
            let kb = rustisflying::geo::order_key(b.to_bits());
            assert_eq!(ka.cmp(&kb), a.total_cmp(&b), "{a} vs {b}");
            assert_eq!(ka == kb, a.total_cmp(&b) == Ordering::Equal);
        }
    }
    assert_eq!(rustisflying::geo::order_key(0), 0);
    assert_eq!(rustisflying::geo::order_key(0x8000_0000_0000_0000), -1);
}
