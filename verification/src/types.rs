//! The value types of the library: angles in micro-degrees, observer
//! locations, horizontal positions, and the error enums.

use vstd::prelude::*;

verus! {

/// Number of micro-degrees in a full turn.
pub const FULL_TURN_UDEG: i64 = 360_000_000;

/// Number of micro-degrees in a quarter turn.
pub const QUARTER_TURN_UDEG: i64 = 90_000_000;

/// Selects how a parsed sexagesimal value is interpreted: right ascension
/// is given in hours and scaled by 15 to degrees; declination is already
/// in degrees.
#[derive(Clone, Copy, PartialEq, Eq, Structural, Debug)]
pub enum AngleKind {
    RightAscension,
    Declination,
}

/// An angle held exactly as a signed count of micro-degrees.
#[derive(Clone, Copy, PartialEq, Eq, Structural, Debug)]
pub struct Angle {
    pub udeg: i64,
}

/// Errors of the sexagesimal parser.
#[derive(Clone, Copy, PartialEq, Eq, Structural, Debug)]
pub enum ParseError {
    /// The input does not contain at least three numeric tokens.
    MalformedAngle,
    /// A token among the first three is not a plain decimal number
    /// (digits with one optional point; exponent forms are not part of
    /// the grammar), or its whole part reaches 100_000_000 units, the
    /// most the micro-degree arithmetic can carry.
    NumericParseFailure,
}

/// Error of the horizontal converter: the azimuth formula divides by
/// cos(latitude), which is zero when the observer stands at a pole.
#[derive(Clone, Copy, PartialEq, Eq, Structural, Debug)]
pub enum DomainError {
    /// cos(latitude) is zero at the working precision, so no compass
    /// bearing is defined for this observer.
    PolarObserver,
}

/// An observer's place on Earth, in micro-degrees.
/// Longitude is measured east-positive, in [-180°, 180°].
#[derive(Clone, Copy, PartialEq, Eq, Structural, Debug)]
pub struct GeoCoordinate {
    pub lat_udeg: i64,
    pub long_udeg: i64,
}

impl GeoCoordinate {
    /// A well-formed location: latitude in [-90°, 90°], longitude
    /// east-positive in [-180°, 180°].
    pub open spec fn wf(self) -> bool {
        &&& -QUARTER_TURN_UDEG <= self.lat_udeg <= QUARTER_TURN_UDEG
        &&& -180_000_000 <= self.long_udeg <= 180_000_000
    }

    /// Builds a location from micro-degree latitude and longitude.
    pub fn new(lat_udeg: i64, long_udeg: i64) -> (r: GeoCoordinate)
        requires
            -QUARTER_TURN_UDEG <= lat_udeg <= QUARTER_TURN_UDEG,
            -180_000_000 <= long_udeg <= 180_000_000,
        ensures
            r.wf(),
            r.lat_udeg == lat_udeg,
            r.long_udeg == long_udeg,
    {
        GeoCoordinate { lat_udeg, long_udeg }
    }
}

/// The horizontal position of an object: altitude above the horizon in
/// [-90°, 90°] and azimuth bearing in [0°, 360°], both in micro-degrees.
/// The bearing 360° itself can occur, where the reflected preliminary
/// azimuth lands on the full turn; it is kept rather than wrapped to 0,
/// so that the bearings of hour angles ha and -ha always sum to 360°.
#[derive(Clone, Copy, PartialEq, Eq, Structural, Debug)]
pub struct HorizontalPosition {
    pub alt_udeg: i64,
    pub az_udeg: i64,
}

impl HorizontalPosition {
    /// A well-formed horizontal position.
    pub open spec fn wf(self) -> bool {
        &&& -QUARTER_TURN_UDEG <= self.alt_udeg <= QUARTER_TURN_UDEG
        &&& 0 <= self.az_udeg <= FULL_TURN_UDEG
    }
}

} // verus!
