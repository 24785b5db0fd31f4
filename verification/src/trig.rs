//! Fixed-point trigonometry on angles in micro-degrees.
//!
//! Sine and cosine are computed with Bhaskara's rational approximation
//! sin(x) = 4*x*(180 - x) / (40500 - x*(180 - x)) for x in [0, 180]
//! degrees, carried out exactly in integers: angles in micro-degrees,
//! ratios scaled by 1e6 and truncated.  The approximation is exact at
//! every multiple of 90 degrees and within about 2e-3 elsewhere.  Arcsine
//! is the inverse of this same approximation, found by binary search, so
//! every function here is a total, fully specified integer function.

use vstd::arithmetic::div_mod::*;
use vstd::prelude::*;

use crate::types::QUARTER_TURN_UDEG;

verus! {

/// Bhaskara's sine approximation, scaled: for `d` micro-degrees in
/// [0, 180_000_000], the sine of `d` scaled by 1e6 and truncated.
pub open spec fn sin_half(d: int) -> int {
    let u = d * (180_000_000 - d);
    (4_000_000 * u) / (40_500_000_000_000_000 - u)
}

/// Sine over one full turn: for `d` in [0, 360_000_000), odd symmetry
/// around 180 degrees.
pub open spec fn sin_norm(d: int) -> int {
    if d <= 180_000_000 {
        sin_half(d)
    } else {
        -sin_half(d - 180_000_000)
    }
}

/// Any angle reduced to [0, 360_000_000) micro-degrees.
pub open spec fn norm360(d: int) -> int {
    d % 360_000_000
}

/// The scaled sine of any angle in micro-degrees.
pub open spec fn spec_sin(d: int) -> int {
    sin_norm(norm360(d))
}

/// The scaled cosine of any angle in micro-degrees.
pub open spec fn spec_cos(d: int) -> int {
    spec_sin(d + 90_000_000)
}

pub proof fn lemma_sin_half_bounds(d: int)
    requires
        0 <= d <= 180_000_000,
    ensures
        0 <= sin_half(d) <= 1_000_000,
{
    assert(0 <= d * (180_000_000 - d) <= 8_100_000_000_000_000) by (nonlinear_arith)
        requires
            0 <= d <= 180_000_000,
    ;
    let u = d * (180_000_000 - d);
    let den = 40_500_000_000_000_000 - u;
    lemma_div_pos_is_pos(4_000_000 * u, den);
    assert(4_000_000 * u <= den * 1_000_000);
    lemma_multiply_divide_le(4_000_000 * u, den, 1_000_000);
}

/// The approximation is exact at zero: sin(0) = 0 and, by symmetry,
/// sin(180°) = 0.
pub proof fn lemma_sin_half_ends(d: int)
    requires
        d == 0 || d == 180_000_000,
    ensures
        sin_half(d) == 0,
{
    assert(d * (180_000_000 - d) == 0) by (nonlinear_arith)
        requires
            d == 0 || d == 180_000_000,
    ;
    let u = d * (180_000_000 - d);
    lemma_div_of0(40_500_000_000_000_000 - u);
}

/// The approximation is exact at a right angle: sin(90°) = 1.
pub proof fn lemma_sin_half_quarter()
    ensures
        sin_half(90_000_000) == 1_000_000,
{
    assert(90_000_000 * (180_000_000 - 90_000_000) == 8_100_000_000_000_000);
    let u = 90_000_000 * (180_000_000 - 90_000_000);
    assert(4_000_000 * u == 1_000_000 * (40_500_000_000_000_000 - u));
    lemma_div_multiples_vanish(1_000_000, 40_500_000_000_000_000 - u);
    assert((40_500_000_000_000_000 - u) * 1_000_000 == 1_000_000 * (40_500_000_000_000_000 - u))
        by (nonlinear_arith);
}

/// The approximation is symmetric around 90°, as the sine is.
pub proof fn lemma_sin_half_symmetric(d: int)
    requires
        0 <= d <= 180_000_000,
    ensures
        sin_half(d) == sin_half(180_000_000 - d),
{
    assert(d * (180_000_000 - d) == (180_000_000 - d) * (180_000_000 - (180_000_000 - d)))
        by (nonlinear_arith);
}

/// The sine of the mirrored angle 360° - d is the negated sine of d.
pub proof fn lemma_sin_opposite(d: int)
    requires
        0 < d < 360_000_000,
    ensures
        spec_sin(360_000_000 - d) == -spec_sin(d),
{
    lemma_small_mod(d as nat, 360_000_000nat);
    lemma_small_mod((360_000_000 - d) as nat, 360_000_000nat);
    if d <= 180_000_000 {
        lemma_sin_half_symmetric(d);
        if d == 180_000_000 {
            lemma_sin_half_ends(180_000_000);
        }
    } else {
        lemma_sin_half_symmetric(d - 180_000_000);
    }
}

/// The cosine of the mirrored angle 360° - d equals the cosine of d.
pub proof fn lemma_cos_opposite(d: int)
    requires
        0 <= d < 360_000_000,
    ensures
        spec_cos(360_000_000 - d) == spec_cos(d),
{
    if d < 270_000_000 {
        lemma_small_mod((d + 90_000_000) as nat, 360_000_000nat);
    } else {
        lemma_fundamental_div_mod_converse_mod(d + 90_000_000, 360_000_000, 1, d - 270_000_000);
    }
    if d > 90_000_000 {
        lemma_small_mod((450_000_000 - d) as nat, 360_000_000nat);
    } else {
        lemma_fundamental_div_mod_converse_mod(450_000_000 - d, 360_000_000, 1, 90_000_000 - d);
    }
    if d <= 90_000_000 {
        lemma_sin_half_symmetric(d + 90_000_000);
    } else if d < 270_000_000 {
        lemma_sin_half_symmetric(d - 90_000_000);
    } else {
        lemma_sin_half_symmetric(d - 270_000_000);
    }
}

fn sin_half_x(d: i64) -> (r: i64)
    requires
        0 <= d <= 180_000_000,
    ensures
        r == sin_half(d as int),
        0 <= r <= 1_000_000,
{
    proof {
        assert(0 <= d * (180_000_000 - d) <= 8_100_000_000_000_000) by (nonlinear_arith)
            requires
                0 <= d <= 180_000_000,
        ;
        lemma_sin_half_bounds(d as int);
    }
    let u: i64 = d * (180_000_000 - d);
    let num: u128 = 4_000_000u128 * (u as u128);
    let den: u128 = 40_500_000_000_000_000u128 - (u as u128);
    (num / den) as i64
}

/// The scaled sine of an angle in micro-degrees.
pub fn sin_scaled(d: i64) -> (r: i64)
    requires
        -360_000_000 <= d < 720_000_000,
    ensures
        r == spec_sin(d as int),
        -1_000_000 <= r <= 1_000_000,
{
    let dn: i64 = if d < 0 {
        d + 360_000_000
    } else if d >= 360_000_000 {
        d - 360_000_000
    } else {
        d
    };
    proof {
        if d < 0 {
            lemma_fundamental_div_mod_converse_mod(d as int, 360_000_000, -1, dn as int);
        } else if d >= 360_000_000 {
            lemma_fundamental_div_mod_converse_mod(d as int, 360_000_000, 1, dn as int);
        } else {
            lemma_fundamental_div_mod_converse_mod(d as int, 360_000_000, 0, dn as int);
        }
    }
    if dn <= 180_000_000 {
        sin_half_x(dn)
    } else {
        -sin_half_x(dn - 180_000_000)
    }
}

/// The scaled cosine of an angle in micro-degrees.
pub fn cos_scaled(d: i64) -> (r: i64)
    requires
        -270_000_000 <= d < 630_000_000,
    ensures
        r == spec_cos(d as int),
        -1_000_000 <= r <= 1_000_000,
{
    sin_scaled(d + 90_000_000)
}

/// Binary search for the inverse of `sin_half` on [lo, hi): narrows to the
/// lowest interval end whose next step would overshoot `y`.
pub open spec fn asin_search(y: int, lo: int, hi: int) -> int
    decreases hi - lo,
{
    if hi - lo <= 1 {
        lo
    } else {
        let mid = (lo + hi) / 2;
        if sin_half(mid) <= y {
            asin_search(y, mid, hi)
        } else {
            asin_search(y, lo, mid)
        }
    }
}

/// The angle in [0°, 90°] whose approximate sine is `y`, for `y` in
/// [0, 1_000_000] scaled units.
pub open spec fn asin_nonneg(y: int) -> int {
    if y >= 1_000_000 {
        90_000_000
    } else {
        asin_search(y, 0, 90_000_000)
    }
}

/// The scaled arcsine, odd in `y`, in [-90°, 90°] micro-degrees.
pub open spec fn spec_asin(y: int) -> int {
    if y < 0 {
        -asin_nonneg(-y)
    } else {
        asin_nonneg(y)
    }
}

/// The scaled arccosine: 90° minus the arcsine, in [0°, 180°].
pub open spec fn spec_acos(y: int) -> int {
    90_000_000 - spec_asin(y)
}

pub proof fn lemma_asin_search_range(y: int, lo: int, hi: int)
    requires
        0 <= lo < hi,
    ensures
        lo <= asin_search(y, lo, hi) < hi,
    decreases hi - lo,
{
    if hi - lo > 1 {
        let mid = (lo + hi) / 2;
        assert(lo < mid < hi);
        if sin_half(mid) <= y {
            lemma_asin_search_range(y, mid, hi);
        } else {
            lemma_asin_search_range(y, lo, mid);
        }
    }
}

/// Floor division is monotone across different positive denominators
/// whenever the exact fractions are ordered (cross-multiplied form).
proof fn lemma_div_cross_mono(a1: int, b1: int, a2: int, b2: int)
    requires
        0 <= a1,
        0 < b1,
        0 < b2,
        a1 * b2 <= a2 * b1,
    ensures
        a1 / b1 <= a2 / b2,
{
    let q1 = a1 / b1;
    let q2 = a2 / b2;
    lemma_fundamental_div_mod(a1, b1);
    lemma_fundamental_div_mod(a2, b2);
    lemma_mod_division_less_than_divisor(a1, b1);
    lemma_mod_division_less_than_divisor(a2, b2);
    assert(q1 <= q2) by (nonlinear_arith)
        requires
            a1 == b1 * q1 + a1 % b1,
            a2 == b2 * q2 + a2 % b2,
            0 <= a1 % b1 < b1,
            0 <= a2 % b2 < b2,
            a1 * b2 <= a2 * b1,
            0 < b1,
            0 < b2,
    ;
}

/// The sine approximation is monotone on the first quadrant.
pub proof fn lemma_sin_half_mono(d1: int, d2: int)
    requires
        0 <= d1 <= d2 <= 90_000_000,
    ensures
        sin_half(d1) <= sin_half(d2),
{
    assert(0 <= d1 * (180_000_000 - d1) <= d2 * (180_000_000 - d2) <= 8_100_000_000_000_000)
        by (nonlinear_arith)
        requires
            0 <= d1 <= d2 <= 90_000_000,
    ;
    let u1 = d1 * (180_000_000 - d1);
    let u2 = d2 * (180_000_000 - d2);
    assert((4_000_000 * u1) * (40_500_000_000_000_000 - u2) <= (4_000_000 * u2) * (
    40_500_000_000_000_000 - u1)) by (nonlinear_arith)
        requires
            0 <= u1 <= u2,
    ;
    lemma_div_cross_mono(
        4_000_000 * u1,
        40_500_000_000_000_000 - u1,
        4_000_000 * u2,
        40_500_000_000_000_000 - u2,
    );
}

proof fn lemma_asin_search_bracket(y: int, lo: int, hi: int)
    requires
        0 <= lo < hi <= 90_000_000,
        sin_half(lo) <= y,
        y < sin_half(hi),
    ensures
        sin_half(asin_search(y, lo, hi)) <= y,
        y < sin_half(asin_search(y, lo, hi) + 1),
    decreases hi - lo,
{
    lemma_asin_search_range(y, lo, hi);
    if hi - lo <= 1 {
    } else {
        let mid = (lo + hi) / 2;
        if sin_half(mid) <= y {
            lemma_asin_search_bracket(y, mid, hi);
        } else {
            lemma_asin_search_bracket(y, lo, mid);
        }
    }
}

/// What the arcsine is, exactly: for any ratio `y >= 0`, `asin_nonneg(y)`
/// is the greatest angle in [0°, 90°] whose approximate sine does not
/// exceed `y`.
pub proof fn lemma_asin_nonneg_correct(y: int)
    requires
        0 <= y,
    ensures
        0 <= asin_nonneg(y) <= 90_000_000,
        sin_half(asin_nonneg(y)) <= y,
        forall|d: int| 0 <= d <= 90_000_000 && sin_half(d) <= y ==> d <= asin_nonneg(y),
{
    let r = asin_nonneg(y);
    lemma_sin_half_quarter();
    if y >= 1_000_000 {
        assert(sin_half(r) <= y);
    } else {
        lemma_sin_half_ends(0);
        lemma_asin_search_bracket(y, 0, 90_000_000);
        lemma_asin_search_range(y, 0, 90_000_000);
        assert forall|d: int| 0 <= d <= 90_000_000 && sin_half(d) <= y implies d <= r by {
            if d > r {
                lemma_sin_half_mono(r + 1, d);
            }
        };
    }
}

fn asin_search_x(y: i64, lo: i64, hi: i64) -> (r: i64)
    requires
        0 <= lo < hi <= 90_000_000,
    ensures
        r == asin_search(y as int, lo as int, hi as int),
        lo <= r < hi,
    decreases hi - lo,
{
    proof {
        lemma_asin_search_range(y as int, lo as int, hi as int);
    }
    if hi - lo <= 1 {
        lo
    } else {
        let mid: i64 = (((lo as u64) + (hi as u64)) / 2) as i64;
        if sin_half_x(mid) <= y {
            asin_search_x(y, mid, hi)
        } else {
            asin_search_x(y, lo, mid)
        }
    }
}

/// The scaled arcsine of a ratio in [-1_000_000, 1_000_000].
pub fn asin_scaled(y: i64) -> (r: i64)
    requires
        -1_000_000 <= y <= 1_000_000,
    ensures
        r == spec_asin(y as int),
        -QUARTER_TURN_UDEG <= r <= QUARTER_TURN_UDEG,
{
    if y >= 0 {
        asin_pos(y)
    } else {
        -asin_pos(-y)
    }
}

fn asin_pos(y: i64) -> (r: i64)
    requires
        0 <= y <= 1_000_000,
    ensures
        r == asin_nonneg(y as int),
        0 <= r <= QUARTER_TURN_UDEG,
{
    if y >= 1_000_000 {
        90_000_000
    } else {
        asin_search_x(y, 0, 90_000_000)
    }
}

/// The scaled arccosine of a ratio in [-1_000_000, 1_000_000].
pub fn acos_scaled(y: i64) -> (r: i64)
    requires
        -1_000_000 <= y <= 1_000_000,
    ensures
        r == spec_acos(y as int),
        0 <= r <= 180_000_000,
{
    90_000_000 - asin_scaled(y)
}

} // verus!
