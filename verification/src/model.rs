//! The display model's plain parts: airports at either end of a route, the
//! vertical trend, and the compass point of the heading.

use vstd::prelude::*;

verus! {

/// A resolved airport on either end of a route.
#[derive(Debug, Clone, PartialEq, Eq)]
pub struct AirportRef {
    pub icao: String,
    pub iata: Option<String>,
    pub name: Option<String>,
}

/// The characters of an optional string.
pub open spec fn opt_string_view(s: Option<String>) -> Option<Seq<char>> {
    match s {
        Some(v) => Some(v@),
        None => None,
    }
}

/// A copy of an optional string.
pub fn copy_opt_string(s: &Option<String>) -> (r: Option<String>)
    ensures
        r == *s,
{
    match s {
        Some(v) => Some(v.clone()),
        None => None,
    }
}

impl AirportRef {
    /// A copy of this airport.
    pub fn copy(&self) -> (r: AirportRef)
        ensures
            r == *self,
    {
        AirportRef {
            icao: self.icao.clone(),
            iata: copy_opt_string(&self.iata),
            name: copy_opt_string(&self.name),
        }
    }
}

/// A copy of an optional airport.
pub fn copy_opt_airport(a: &Option<AirportRef>) -> (r: Option<AirportRef>)
    ensures
        r == *a,
{
    match a {
        Some(v) => Some(v.copy()),
        None => None,
    }
}

/// Whether the aircraft is climbing, descending, or holding altitude.
#[derive(Debug, Clone, Copy, PartialEq, Eq, Structural)]
pub enum VerticalDirection {
    Ascending,
    Descending,
    Level,
}

impl VerticalDirection {
    /// The words used for this trend.
    pub fn as_str(&self) -> (r: &'static str)
        ensures
            r == (match *self {
                VerticalDirection::Ascending => "ascending",
                VerticalDirection::Descending => "descending",
                VerticalDirection::Level => "level flight",
            }),
    {
        match self {
            VerticalDirection::Ascending => "ascending",
            VerticalDirection::Descending => "descending",
            VerticalDirection::Level => "level flight",
        }
    }
}

/// The eight points of the compass, derived from an aircraft's track angle.
#[derive(Debug, Clone, Copy, PartialEq, Eq, Structural)]
pub enum CompassPoint {
    North,
    Northeast,
    East,
    Southeast,
    South,
    Southwest,
    West,
    Northwest,
}

/// A point's direction on screen in degrees, clockwise from east (screen
/// y grows downwards, so 90° is south).
pub open spec fn screen_angle(p: CompassPoint) -> int {
    match p {
        CompassPoint::East => 0,
        CompassPoint::Southeast => 45,
        CompassPoint::South => 90,
        CompassPoint::Southwest => 135,
        CompassPoint::West => 180,
        CompassPoint::Northwest => 225,
        CompassPoint::North => 270,
        CompassPoint::Northeast => 315,
    }
}

/// The compass point of a 45° sector, counted clockwise from north
/// (`0` is north, `1` northeast, ..., `7` northwest).
pub open spec fn sector_point(sector: int) -> CompassPoint {
    if sector == 0 {
        CompassPoint::North
    } else if sector == 1 {
        CompassPoint::Northeast
    } else if sector == 2 {
        CompassPoint::East
    } else if sector == 3 {
        CompassPoint::Southeast
    } else if sector == 4 {
        CompassPoint::South
    } else if sector == 5 {
        CompassPoint::Southwest
    } else if sector == 6 {
        CompassPoint::West
    } else {
        CompassPoint::Northwest
    }
}

impl CompassPoint {
    /// The point of a sector number; sector numbers wrap around every eight.
    pub fn from_sector(sector: u8) -> (r: CompassPoint)
        ensures
            r == sector_point(sector as int % 8),
    {
        match sector % 8 {
            0 => CompassPoint::North,
            1 => CompassPoint::Northeast,
            2 => CompassPoint::East,
            3 => CompassPoint::Southeast,
            4 => CompassPoint::South,
            5 => CompassPoint::Southwest,
            6 => CompassPoint::West,
            _ => CompassPoint::Northwest,
        }
    }

    /// An arrow pointing in this direction, for heading displays.
    pub fn arrow(&self) -> (r: &'static str)
        ensures
            r == (match *self {
                CompassPoint::North => "↑",
                CompassPoint::Northeast => "↗",
                CompassPoint::East => "→",
                CompassPoint::Southeast => "↘",
                CompassPoint::South => "↓",
                CompassPoint::Southwest => "↙",
                CompassPoint::West => "←",
                CompassPoint::Northwest => "↖",
            }),
    {
        match self {
            CompassPoint::North => "↑",
            CompassPoint::Northeast => "↗",
            CompassPoint::East => "→",
            CompassPoint::Southeast => "↘",
            CompassPoint::South => "↓",
            CompassPoint::Southwest => "↙",
            CompassPoint::West => "←",
            CompassPoint::Northwest => "↖",
        }
    }

    /// The usual one- or two-letter abbreviation ("N", "NE", ...).
    pub fn abbrev(&self) -> (r: &'static str)
        ensures
            r == (match *self {
                CompassPoint::North => "N",
                CompassPoint::Northeast => "NE",
                CompassPoint::East => "E",
                CompassPoint::Southeast => "SE",
                CompassPoint::South => "S",
                CompassPoint::Southwest => "SW",
                CompassPoint::West => "W",
                CompassPoint::Northwest => "NW",
            }),
    {
        match self {
            CompassPoint::North => "N",
            CompassPoint::Northeast => "NE",
            CompassPoint::East => "E",
            CompassPoint::Southeast => "SE",
            CompassPoint::South => "S",
            CompassPoint::Southwest => "SW",
            CompassPoint::West => "W",
            CompassPoint::Northwest => "NW",
        }
    }

    /// The direction on screen in degrees, clockwise from east (screen
    /// y grows downwards, so 90° is down/south).
    pub fn screen_degrees(&self) -> (r: u16)
        ensures
            r == screen_angle(*self),
    {
        match self {
            CompassPoint::East => 0,
            CompassPoint::Southeast => 45,
            CompassPoint::South => 90,
            CompassPoint::Southwest => 135,
            CompassPoint::West => 180,
            CompassPoint::Northwest => 225,
            CompassPoint::North => 270,
            CompassPoint::Northeast => 315,
        }
    }
}

/// Sector numbers wrap around: a full turn lands on the same point.
pub proof fn lemma_sector_wraps(sector: int)
    requires
        sector >= 0,
    ensures
        sector_point((sector + 8) % 8) == sector_point(sector % 8),
{
    assert((sector + 8) % 8 == sector % 8);
}

/// Sectors go round clockwise from north in 45° steps: sector `k` points
/// 45·k degrees clockwise of north, which on screen (0° east, 90° south) is
/// the angle 270 + 45·k, taken modulo 360. So neighbouring sectors are
/// neighbouring points, a quarter turn is two sectors, and the eight
/// sectors give the eight points once each.
pub proof fn lemma_sector_angle(sector: int)
    requires
        sector >= 0,
    ensures
        screen_angle(sector_point(sector % 8)) == (270 + 45 * (sector % 8)) % 360,
        (screen_angle(sector_point((sector + 1) % 8)) - screen_angle(sector_point(sector % 8))
            + 360) % 360 == 45,
{
    let k = sector % 8;
    assert(0 <= k < 8);
    assert((sector + 1) % 8 == (k + 1) % 8);
}

} // verus!
