//! The horizontal converter: from hour angle, declination and observer
//! location to altitude and azimuth, all in micro-degrees.
//!
//! The spherical-trigonometry formulas
//!   altitude = asin(sin dec * sin lat + cos dec * cos lat * cos ha)
//!   azimuth' = acos((sin dec - sin alt * sin lat) / (cos alt * cos lat))
//! are evaluated with the exact fixed-point trigonometry of `trig`; the
//! azimuth is azimuth' when sin(ha) < 0 and 360° - azimuth' otherwise,
//! in [0°, 360°] (360° itself stays, as the formula yields it, so that
//! opposite hour angles' bearings sum to a full turn).  Where the
//! division would be undefined the
//! behaviour is fixed instead of letting it blow up: an observer at a
//! pole (cos lat = 0) gets a domain error, an object at the zenith or
//! nadir (cos alt = 0) gets azimuth 0.

use vstd::arithmetic::div_mod::*;
use vstd::prelude::*;

use crate::sidereal::tdiv;
use crate::trig::acos_scaled;
use crate::trig::asin_scaled;
use crate::trig::cos_scaled;
use crate::trig::lemma_sin_half_bounds;
use crate::trig::sin_half;
use crate::trig::sin_scaled;
use crate::trig::spec_acos;
use crate::trig::spec_asin;
use crate::trig::spec_cos;
use crate::trig::spec_sin;
use crate::types::DomainError;
use crate::types::FULL_TURN_UDEG;
use crate::types::GeoCoordinate;
use crate::types::HorizontalPosition;
use crate::types::QUARTER_TURN_UDEG;

verus! {

/// A ratio forced into the domain of the inverse trig functions,
/// [-1_000_000, 1_000_000] scaled units.
pub open spec fn clamp_unit(x: int) -> int {
    if x < -1_000_000 {
        -1_000_000
    } else if x > 1_000_000 {
        1_000_000
    } else {
        x
    }
}

/// The scaled sine of the altitude:
/// (sin dec * sin lat + cos dec * cos lat * cos ha), carried at scale 1e18
/// and truncated back to scale 1e6, clamped to the unit interval.
pub open spec fn spec_sin_alt(ha: int, dec: int, lat: int) -> int {
    clamp_unit(
        tdiv(
            spec_sin(dec) * spec_sin(lat) * 1_000_000 + spec_cos(dec) * spec_cos(lat) * spec_cos(
                ha,
            ),
            1_000_000_000_000,
        ),
    )
}

/// The altitude in micro-degrees.
pub open spec fn spec_alt(ha: int, dec: int, lat: int) -> int {
    spec_asin(spec_sin_alt(ha, dec, lat))
}

/// The preliminary azimuth ratio
/// (sin dec - sin alt * sin lat) / (cos alt * cos lat), scaled and clamped.
pub open spec fn spec_az_ratio(ha: int, dec: int, lat: int) -> int {
    let alt = spec_alt(ha, dec, lat);
    clamp_unit(
        tdiv(
            (spec_sin(dec) * 1_000_000 - spec_sin(alt) * spec_sin(lat)) * 1_000_000,
            spec_cos(alt) * spec_cos(lat),
        ),
    )
}

/// The azimuth in micro-degrees, in [0, 360°]: the preliminary arccosine
/// when sin(ha) < 0, its reflection 360° minus it otherwise (so the
/// bearings of opposite hour angles sum to a full turn, the bearing 360°
/// itself included); 0 at the zenith or nadir, where no bearing is
/// defined.
pub open spec fn spec_az(ha: int, dec: int, lat: int) -> int {
    let alt = spec_alt(ha, dec, lat);
    if spec_cos(alt) == 0 {
        0
    } else {
        let azp = spec_acos(spec_az_ratio(ha, dec, lat));
        if spec_sin(ha) < 0 {
            azp
        } else {
            360_000_000 - azp
        }
    }
}

/// The domain error condition: at a pole the azimuth divides by
/// cos(latitude) = 0 and no compass bearing exists.
pub open spec fn spec_polar(lat: int) -> bool {
    spec_cos(lat) == 0
}

proof fn lemma_prod2_bound(x: int, y: int)
    by (nonlinear_arith)
    requires
        -1_000_000 <= x <= 1_000_000,
        -1_000_000 <= y <= 1_000_000,
    ensures
        -1_000_000_000_000 <= x * y <= 1_000_000_000_000,
{
}

proof fn lemma_prod3_bound(x: int, y: int, z: int)
    by (nonlinear_arith)
    requires
        -1_000_000 <= x <= 1_000_000,
        -1_000_000 <= y <= 1_000_000,
        -1_000_000 <= z <= 1_000_000,
    ensures
        -1_000_000_000_000_000_000 <= x * y * z <= 1_000_000_000_000_000_000,
{
}

/// The cosine of an angle between -90° and 90° is non-negative.
pub proof fn lemma_cos_first_quadrant(d: int)
    requires
        -QUARTER_TURN_UDEG <= d <= QUARTER_TURN_UDEG,
    ensures
        0 <= spec_cos(d) <= 1_000_000,
        spec_cos(d) == sin_half(d + 90_000_000),
{
    lemma_small_mod((d + 90_000_000) as nat, 360_000_000nat);
    lemma_sin_half_bounds(d + 90_000_000);
}

/// The zenith law: at latitude 0 and longitude 0, an object at hour
/// angle 0 and declination 0 stands at the zenith — its altitude is
/// exactly 90 degrees (and its azimuth takes the defined fallback 0,
/// since no bearing exists straight up).
pub proof fn lemma_zenith()
    ensures
        spec_alt(0, 0, 0) == QUARTER_TURN_UDEG,
        spec_az(0, 0, 0) == 0,
        !spec_polar(0),
{
    lemma_small_mod(0nat, 360_000_000nat);
    crate::trig::lemma_sin_half_ends(0);
    lemma_small_mod(90_000_000nat, 360_000_000nat);
    crate::trig::lemma_sin_half_quarter();
    let a = spec_sin(0);
    let b = spec_cos(0);
    assert(a == 0);
    assert(b == 1_000_000);
    assert(a * a * 1_000_000 + b * b * b == 1_000_000_000_000_000_000) by (nonlinear_arith)
        requires
            a == 0,
            b == 1_000_000,
    ;
    lemma_div_multiples_vanish(1_000_000, 1_000_000_000_000);
    assert(1_000_000_000_000 * 1_000_000 == 1_000_000_000_000_000_000);
    assert(spec_sin_alt(0, 0, 0) == 1_000_000);
    assert(spec_alt(0, 0, 0) == 90_000_000);
    lemma_small_mod(180_000_000nat, 360_000_000nat);
    crate::trig::lemma_sin_half_ends(180_000_000);
    assert(spec_cos(90_000_000) == 0);
}

/// The reflection law: for mirrored hour angles ha and 360° - ha (the
/// object east and west of the meridian by the same amount), with
/// sin(ha) != 0, the altitude is the same and the two bearings sum to
/// exactly one full turn.  An object at the zenith or nadir is left out:
/// there both bearings take the defined fallback 0.
pub proof fn lemma_azimuth_reflection(ha: int, dec: int, lat: int)
    requires
        0 < ha < 360_000_000,
        spec_sin(ha) != 0,
        spec_cos(spec_alt(ha, dec, lat)) != 0,
    ensures
        spec_alt(360_000_000 - ha, dec, lat) == spec_alt(ha, dec, lat),
        spec_az(ha, dec, lat) + spec_az(360_000_000 - ha, dec, lat) == 360_000_000,
{
    crate::trig::lemma_cos_opposite(ha);
    crate::trig::lemma_sin_opposite(ha);
}

fn clamp_div(a: i128, b: i128) -> (r: i64)
    requires
        -2_000_000_000_000_000_000 <= a <= 2_000_000_000_000_000_000,
        1 <= b <= 1_000_000_000_000,
    ensures
        r == clamp_unit(tdiv(a as int, b as int)),
        -1_000_000 <= r <= 1_000_000,
{
    let q: i128 = if a >= 0 {
        proof {
            lemma_div_pos_is_pos(a as int, b as int);
            lemma_div_nonincreasing(a as int, b as int);
        }
        ((a as u128) / (b as u128)) as i128
    } else {
        proof {
            lemma_div_pos_is_pos(-a as int, b as int);
            lemma_div_nonincreasing(-a as int, b as int);
        }
        -((((-a) as u128) / (b as u128)) as i128)
    };
    if q < -1_000_000 {
        -1_000_000
    } else if q > 1_000_000 {
        1_000_000
    } else {
        q as i64
    }
}

/// Converts an hour angle and declination to a horizontal position for an
/// observer.
///
/// Returns `Err(DomainError::PolarObserver)` exactly when the observer's
/// cos(latitude) is zero at the working precision; otherwise the altitude
/// and azimuth are exactly `spec_alt` and `spec_az`.
pub fn to_alt_az(ha_udeg: i64, dec_udeg: i64, location: GeoCoordinate) -> (r: Result<
    HorizontalPosition,
    DomainError,
>)
    requires
        0 <= ha_udeg < FULL_TURN_UDEG,
        -QUARTER_TURN_UDEG <= dec_udeg <= QUARTER_TURN_UDEG,
        location.wf(),
    ensures
        r is Err <==> spec_polar(location.lat_udeg as int),
        r matches Err(e) ==> e == DomainError::PolarObserver,
        r matches Ok(p) ==> p.alt_udeg == spec_alt(
            ha_udeg as int,
            dec_udeg as int,
            location.lat_udeg as int,
        ) && p.az_udeg == spec_az(ha_udeg as int, dec_udeg as int, location.lat_udeg as int)
            && p.wf(),
{
    let lat = location.lat_udeg;
    let sd = sin_scaled(dec_udeg);
    let sl = sin_scaled(lat);
    let cd = cos_scaled(dec_udeg);
    let cl = cos_scaled(lat);
    let ch = cos_scaled(ha_udeg);
    if cl == 0 {
        return Err(DomainError::PolarObserver);
    }
    proof {
        lemma_prod2_bound(sd as int, sl as int);
        lemma_prod2_bound(cd as int, cl as int);
        lemma_prod3_bound(sd as int, sl as int, 1_000_000);
        lemma_prod3_bound(cd as int, cl as int, ch as int);
    }
    let p_num: i128 = (sd as i128) * (sl as i128) * 1_000_000 + (cd as i128) * (cl as i128) * (
    ch as i128);
    let p = clamp_div(p_num, 1_000_000_000_000);
    let alt = asin_scaled(p);
    let salt = sin_scaled(alt);
    let calt = cos_scaled(alt);
    proof {
        lemma_cos_first_quadrant(alt as int);
        lemma_cos_first_quadrant(lat as int);
    }
    let az: i64 = if calt == 0 {
        0
    } else {
        proof {
            lemma_prod2_bound(sd as int, 1_000_000);
            lemma_prod2_bound(salt as int, sl as int);
            lemma_prod2_bound(calt as int, cl as int);
            assert((calt as int) * (cl as int) >= 1) by (nonlinear_arith)
                requires
                    calt as int >= 1,
                    cl as int >= 1,
            ;
        }
        let q_num: i128 = ((sd as i128) * 1_000_000 - (salt as i128) * (sl as i128)) * 1_000_000;
        let den: i128 = (calt as i128) * (cl as i128);
        let qr = clamp_div(q_num, den);
        let azp = acos_scaled(qr);
        let sh = sin_scaled(ha_udeg);
        if sh < 0 {
            azp
        } else {
            360_000_000 - azp
        }
    };
    Ok(HorizontalPosition { alt_udeg: alt, az_udeg: az })
}

} // verus!
