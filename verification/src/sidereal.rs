//! Local sidereal time from a clock reading.
//!
//! The approximation is the classical formula
//! lst = (100.46 + 0.985647 * d + longitude + 15 * ut) mod 360,
//! where d is the time since the J2000.0 epoch in days (here carried as
//! whole seconds, d = secs/86400) and ut is the UTC time of day in hours
//! (hour + minute/60).  Everything is computed exactly in micro-degrees:
//! the drift term becomes (985647 * secs) / 86400 micro-degrees, truncated
//! toward zero, and the result is reduced with a Euclidean modulus, so it
//! always lies in [0, 360) degrees, whatever the inputs.

use vstd::arithmetic::div_mod::*;
use vstd::prelude::*;

use crate::types::FULL_TURN_UDEG;

verus! {

/// Division truncated toward zero (the rounding used for the drift term).
pub open spec fn tdiv(a: int, b: int) -> int {
    if a >= 0 {
        a / b
    } else {
        -((-a) / b)
    }
}

/// The drift of sidereal time against solar time since the epoch,
/// 0.985647 degrees per day, in micro-degrees for `secs` whole seconds.
pub open spec fn spec_drift(secs: int) -> int {
    tdiv(985_647 * secs, 86_400)
}

/// The local sidereal time in micro-degrees, always in [0, 360) degrees:
/// 100.46° + drift + east longitude + 15°/h times the UTC time of day,
/// reduced by a Euclidean modulus of 360°.
pub open spec fn spec_lst(secs: int, long_udeg: int, hour: int, minute: int) -> int {
    (100_460_000 + spec_drift(secs) + long_udeg + 15_000_000 * hour + 250_000 * minute)
        % 360_000_000
}

fn drift_term(secs: i64) -> (r: i128)
    ensures
        r == spec_drift(secs as int),
        -10_000_000_000_000_000_000_000_000 <= r <= 10_000_000_000_000_000_000_000_000,
{
    let p: i128 = 985_647i128 * (secs as i128);
    if p >= 0 {
        proof {
            lemma_div_pos_is_pos(p as int, 86_400);
            lemma_div_nonincreasing(p as int, 86_400);
        }
        ((p as u128) / 86_400) as i128
    } else {
        proof {
            lemma_div_pos_is_pos(-p as int, 86_400);
            lemma_div_nonincreasing(-p as int, 86_400);
        }
        -((((-p) as u128) / 86_400) as i128)
    }
}

fn emod360(t: i128) -> (r: i64)
    requires
        -100_000_000_000_000_000_000_000_000 <= t <= 100_000_000_000_000_000_000_000_000,
    ensures
        r == (t as int) % 360_000_000,
        0 <= r < 360_000_000,
{
    proof {
        lemma_mod_division_less_than_divisor(t as int, 360_000_000);
    }
    if t >= 0 {
        ((t as u128) % 360_000_000) as i64
    } else {
        let k: u128 = ((-t) as u128) % 360_000_000;
        proof {
            let q = (-t as int) / 360_000_000;
            lemma_fundamental_div_mod(-t as int, 360_000_000);
            lemma_mod_division_less_than_divisor(-t as int, 360_000_000);
            assert(t as int == (-q) * 360_000_000 + -((-t as int) % 360_000_000))
                by (nonlinear_arith)
                requires
                    -t as int == 360_000_000 * q + (-t as int) % 360_000_000,
            ;
            if k == 0 {
                lemma_fundamental_div_mod_converse_mod(t as int, 360_000_000, -q, 0);
            } else {
                assert(t as int == (-q - 1) * 360_000_000 + (360_000_000 - ((-t as int)
                    % 360_000_000))) by (nonlinear_arith)
                    requires
                        t as int == (-q) * 360_000_000 + -((-t as int) % 360_000_000),
                ;
                lemma_fundamental_div_mod_converse_mod(
                    t as int,
                    360_000_000,
                    -q - 1,
                    360_000_000 - ((-t as int) % 360_000_000),
                );
            }
        }
        if k == 0 {
            0
        } else {
            (360_000_000 - k) as i64
        }
    }
}

/// The local sidereal time for a clock reading, in micro-degrees.
///
/// `secs_since_epoch` is the whole seconds since J2000.0, `long_udeg` the
/// observer's east longitude in micro-degrees, and `hour`/`minute` the UTC
/// time of day of the same reading.  The result equals `spec_lst` exactly
/// and always lies in [0, 360) degrees.
pub fn local_sidereal_time(secs_since_epoch: i64, long_udeg: i64, hour: u8, minute: u8) -> (r:
    i64)
    requires
        -180_000_000 <= long_udeg <= 180_000_000,
        hour < 24,
        minute < 60,
    ensures
        r == spec_lst(secs_since_epoch as int, long_udeg as int, hour as int, minute as int),
        0 <= r < FULL_TURN_UDEG,
{
    let drift = drift_term(secs_since_epoch);
    let t: i128 = 100_460_000 + drift + (long_udeg as i128) + 15_000_000 * (hour as i128)
        + 250_000 * (minute as i128);
    emod360(t)
}

} // verus!
