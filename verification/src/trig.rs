//! Fixed-point circular functions on the milliradian grid.
//!
//! The engine defines its own deterministic sine: the argument is reduced
//! modulo a full turn and a quadratic rational approximation covers each half
//! turn.  The contracts state the algorithm exactly, so every rotation matrix
//! built from these values is reproducible.

use vstd::prelude::*;
use crate::fixed::dtz;

verus! {

/// A full turn in milliradians.
pub const TURN: i64 = 6283;

/// Half a turn in milliradians.
pub const HALF_TURN: i64 = 3142;

/// A quarter turn in milliradians.
pub const QUARTER_TURN: i64 = 1571;

/// Quadratic rational approximation of the sine over the first half turn,
/// scaled to thousandths.
pub open spec fn half_wave(r: int) -> int
    recommends
        0 <= r < HALF_TURN,
{
    let t = r * (HALF_TURN - r);
    dtz(16000 * t, 5 * (HALF_TURN as int) * (HALF_TURN as int) - 4 * t)
}

/// Sine of a milliradian angle, in thousandths.
pub open spec fn sin_fx(x: int) -> int {
    let r = x % (TURN as int);
    if r < HALF_TURN {
        half_wave(r)
    } else {
        -half_wave(r - HALF_TURN)
    }
}

/// Cosine of a milliradian angle, in thousandths.
pub open spec fn cos_fx(x: int) -> int {
    sin_fx(x + QUARTER_TURN)
}

/// Milliradians of a millidegree angle.
pub open spec fn deg_to_rad(a: int) -> int {
    crate::fixed::sat64(dtz(a * 17453, 1000000))
}

fn half_wave_e(r: i64) -> (s: i64)
    requires
        0 <= r < HALF_TURN,
    ensures
        s as int == half_wave(r as int),
        s >= 0,
{
    proof {
        assert(0 <= r * (HALF_TURN - r) <= 2468041) by (nonlinear_arith)
            requires
                0 <= r < HALF_TURN,
                HALF_TURN == 3142,
        ;
    }
    let t: i64 = r * (HALF_TURN - r);
    let num: i64 = 16000 * t;
    let denom: i64 = 5 * HALF_TURN * HALF_TURN - 4 * t;
    proof {
        crate::fixed::lemma_dtz_bounds(num as int, denom as int);
    }
    num.checked_div(denom).unwrap()
}

pub fn sin_e(x: i64) -> (s: i64)
    ensures
        s as int == sin_fx(x as int),
{
    let r = x.checked_rem_euclid(TURN).unwrap();
    if r < HALF_TURN {
        half_wave_e(r)
    } else {
        let v = half_wave_e(r - HALF_TURN);
        -v
    }
}

pub fn cos_e(x: i64) -> (s: i64)
    ensures
        s as int == cos_fx(x as int),
{
    let r0 = x.checked_rem_euclid(TURN).unwrap();
    proof {
        vstd::arithmetic::div_mod::lemma_add_mod_noop(
            x as int,
            QUARTER_TURN as int,
            TURN as int,
        );
        vstd::arithmetic::div_mod::lemma_add_mod_noop(
            r0 as int,
            QUARTER_TURN as int,
            TURN as int,
        );
        vstd::arithmetic::div_mod::lemma_small_mod(QUARTER_TURN as nat, TURN as nat);
        vstd::arithmetic::div_mod::lemma_small_mod(r0 as nat, TURN as nat);
    }
    sin_e(r0 + QUARTER_TURN)
}

pub fn deg_to_rad_e(a: i64) -> (r: i64)
    ensures
        r as int == deg_to_rad(a as int),
{
    proof {
        assert(a * 17453 <= i128::MAX && a * 17453 >= i128::MIN) by (nonlinear_arith)
            requires
                i64::MIN <= a <= i64::MAX,
        ;
    }
    let p: i128 = (a as i128) * 17453;
    let q = crate::fixed::dtz128(p, 1000000);
    crate::fixed::clamp128(q)
}

} // verus!
