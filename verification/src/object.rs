//! A named celestial object with parsed equatorial coordinates, and the
//! full query pipeline: clock reading, sidereal time, hour angle, and the
//! horizontal conversion.

use vstd::prelude::*;

use crate::clock::Instant;
use crate::horizontal::spec_alt;
use crate::horizontal::spec_az;
use crate::horizontal::spec_polar;
use crate::horizontal::to_alt_az;
use crate::sidereal::local_sidereal_time;
use crate::sidereal::spec_lst;
use crate::types::Angle;
use crate::types::DomainError;
use crate::types::FULL_TURN_UDEG;
use crate::types::GeoCoordinate;
use crate::types::HorizontalPosition;
use crate::types::QUARTER_TURN_UDEG;

verus! {

/// The hour angle: local sidereal time minus right ascension, brought
/// into [0, 360°) by one added turn if negative.
pub open spec fn spec_hour_angle(lst: int, ra: int) -> int {
    if lst - ra < 0 {
        lst - ra + 360_000_000
    } else {
        lst - ra
    }
}

/// What `alt_az_at` returns for an object with right ascension `ra` and
/// declination `dec` (micro-degrees), a clock reading, and a location:
/// a domain error exactly for a polar observer, otherwise the altitude
/// and azimuth of `spec_alt` and `spec_az` at the hour angle derived from
/// the sidereal time of the reading.
pub open spec fn alt_az_post(
    ra: int,
    dec: int,
    instant: Instant,
    location: GeoCoordinate,
    r: Result<HorizontalPosition, DomainError>,
) -> bool {
    let lst = spec_lst(
        instant.secs_since_epoch as int,
        location.long_udeg as int,
        instant.hour as int,
        instant.minute as int,
    );
    let ha = spec_hour_angle(lst, ra);
    &&& (r is Err <==> spec_polar(location.lat_udeg as int))
    &&& (r matches Err(e) ==> e == DomainError::PolarObserver)
    &&& (r matches Ok(p) ==> p.alt_udeg == spec_alt(ha, dec, location.lat_udeg as int)
        && p.az_udeg == spec_az(ha, dec, location.lat_udeg as int) && p.wf())
}

/// A celestial object: a name and its equatorial coordinates, right
/// ascension in [0°, 360°] and declination in [-90°, 90°], held in
/// micro-degrees and immutable once built.
pub struct CelestialObject {
    pub name: String,
    pub right_ascension: Angle,
    pub declination: Angle,
}

impl CelestialObject {
    /// A well-formed object: both coordinates in their documented ranges.
    pub open spec fn wf(self) -> bool {
        &&& 0 <= self.right_ascension.udeg <= FULL_TURN_UDEG
        &&& -QUARTER_TURN_UDEG <= self.declination.udeg <= QUARTER_TURN_UDEG
    }

    /// Builds an object from a name and parsed coordinates.
    pub fn new(name: String, right_ascension: Angle, declination: Angle) -> (r: CelestialObject)
        requires
            0 <= right_ascension.udeg <= FULL_TURN_UDEG,
            -QUARTER_TURN_UDEG <= declination.udeg <= QUARTER_TURN_UDEG,
        ensures
            r.wf(),
            r.name == name,
            r.right_ascension == right_ascension,
            r.declination == declination,
    {
        CelestialObject { name, right_ascension, declination }
    }

    /// The object's horizontal position for a given clock reading: a pure
    /// function of the object, the reading and the location, stated
    /// exactly by `alt_az_post`.
    pub fn alt_az_at(&self, instant: Instant, location: GeoCoordinate) -> (r: Result<
        HorizontalPosition,
        DomainError,
    >)
        requires
            self.wf(),
            instant.wf(),
            location.wf(),
        ensures
            alt_az_post(
                self.right_ascension.udeg as int,
                self.declination.udeg as int,
                instant,
                location,
                r,
            ),
    {
        let lst = local_sidereal_time(
            instant.secs_since_epoch,
            location.long_udeg,
            instant.hour,
            instant.minute,
        );
        let diff: i64 = lst - self.right_ascension.udeg;
        let ha: i64 = if diff < 0 {
            diff + 360_000_000
        } else {
            diff
        };
        to_alt_az(ha, self.declination.udeg, location)
    }

    /// The object's horizontal position now: reads the clock once and
    /// runs the pure pipeline on that single reading.
    pub fn current_alt_az(&self, location: GeoCoordinate) -> (r: Result<
        HorizontalPosition,
        DomainError,
    >)
        requires
            self.wf(),
            location.wf(),
        ensures
            exists|i: Instant|
                i.wf() && alt_az_post(
                    self.right_ascension.udeg as int,
                    self.declination.udeg as int,
                    i,
                    location,
                    r,
                ),
    {
        let instant = Instant::now();
        let r = self.alt_az_at(instant, location);
        proof {
            assert(instant.wf() && alt_az_post(
                self.right_ascension.udeg as int,
                self.declination.udeg as int,
                instant,
                location,
                r,
            ));
        }
        r
    }
}

/// Determinism of the pipeline: for one object, one clock reading and one
/// location, any two results that satisfy the pipeline's contract are the
/// same — no hidden state enters the computation.
pub proof fn lemma_alt_az_deterministic(
    ra: int,
    dec: int,
    instant: Instant,
    location: GeoCoordinate,
    r1: Result<HorizontalPosition, DomainError>,
    r2: Result<HorizontalPosition, DomainError>,
)
    requires
        alt_az_post(ra, dec, instant, location, r1),
        alt_az_post(ra, dec, instant, location, r2),
    ensures
        r1 == r2,
{
    match (r1, r2) {
        (Ok(p1), Ok(p2)) => {
            assert(p1.alt_udeg == p2.alt_udeg && p1.az_udeg == p2.az_udeg);
        },
        _ => {},
    }
}

} // verus!
