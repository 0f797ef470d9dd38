use rustisflying::model::{CompassPoint, VerticalDirection};

#[test]
fn compass_points_from_sectors() {
    assert_eq!(CompassPoint::from_sector(0), CompassPoint::North);
    assert_eq!(CompassPoint::from_sector(2), CompassPoint::East);
    assert_eq!(CompassPoint::from_sector(4), CompassPoint::South);
    assert_eq!(CompassPoint::from_sector(7), CompassPoint::Northwest);
    // Sector numbers wrap around a full turn.
    assert_eq!(CompassPoint::from_sector(8), CompassPoint::North);
    assert_eq!(CompassPoint::from_sector(9), CompassPoint::Northeast);
    assert_eq!(CompassPoint::from_sector(255), CompassPoint::Northwest);
}

#[test]
fn compass_point_wordings() {
    assert_eq!(CompassPoint::Northeast.abbrev(), "NE");
    assert_eq!(CompassPoint::West.abbrev(), "W");
    assert_eq!(CompassPoint::North.arrow(), "↑");
    assert_eq!(CompassPoint::Southwest.arrow(), "↙");
    assert_eq!(CompassPoint::East.screen_degrees(), 0);
    assert_eq!(CompassPoint::North.screen_degrees(), 270);
    assert_eq!(CompassPoint::Northeast.screen_degrees(), 315);
}

#[test]
fn vertical_direction_wordings() {
    assert_eq!(VerticalDirection::Ascending.as_str(), "ascending");
    assert_eq!(VerticalDirection::Descending.as_str(), "descending");
    assert_eq!(VerticalDirection::Level.as_str(), "level flight");
}
