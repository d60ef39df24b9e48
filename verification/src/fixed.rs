//! Saturating fixed-point scalar arithmetic.
//!
//! Every scalar quantity of the engine (coordinates, speeds, colors, elapsed
//! seconds) is an `i64` counted in thousandths of a unit.  Multiplication and
//! division rescale with truncation toward zero, and every operation saturates
//! at the `i64` range instead of wrapping, so all operations are total and
//! deterministic.

use vstd::prelude::*;

verus! {

/// Number of fixed-point steps that make up 1.0.
pub const FX_UNIT: i64 = 1000;

/// Division truncating toward zero (the `/` of the underlying machine),
/// defined for positive divisors.
pub open spec fn dtz(a: int, b: int) -> int
    recommends
        b > 0,
{
    if a >= 0 {
        a / b
    } else {
        -((-a) / b)
    }
}

/// Clamp a mathematical integer into the `i64` range.
pub open spec fn sat64(x: int) -> int {
    if x > i64::MAX {
        i64::MAX as int
    } else if x < i64::MIN {
        i64::MIN as int
    } else {
        x
    }
}

/// Saturating fixed-point sum.
pub open spec fn fx_add(a: int, b: int) -> int {
    sat64(a + b)
}

/// Saturating fixed-point difference.
pub open spec fn fx_sub(a: int, b: int) -> int {
    sat64(a - b)
}

/// Saturating fixed-point negation.
pub open spec fn fx_neg(a: int) -> int {
    sat64(-a)
}

/// Saturating fixed-point product: rescaled by `FX_UNIT` with truncation.
pub open spec fn fx_mul(a: int, b: int) -> int {
    sat64(dtz(a * b, FX_UNIT as int))
}

/// Saturating fixed-point quotient for a nonzero divisor, truncating toward
/// zero as the machine's division does.
pub open spec fn fx_div(a: int, b: int) -> int
    recommends
        b != 0,
{
    if b > 0 {
        sat64(dtz(a * (FX_UNIT as int), b))
    } else {
        sat64(-dtz(a * (FX_UNIT as int), -b))
    }
}

/// Half of a fixed-point value, truncating toward zero.
pub open spec fn fx_half(a: int) -> int {
    dtz(a, 2)
}

pub fn add_fx(a: i64, b: i64) -> (r: i64)
    ensures
        r as int == fx_add(a as int, b as int),
{
    match a.checked_add(b) {
        Some(v) => v,
        None => if b > 0 {
            i64::MAX
        } else {
            i64::MIN
        },
    }
}

pub fn sub_fx(a: i64, b: i64) -> (r: i64)
    ensures
        r as int == fx_sub(a as int, b as int),
{
    match a.checked_sub(b) {
        Some(v) => v,
        None => if b > 0 {
            i64::MIN
        } else {
            i64::MAX
        },
    }
}

pub fn neg_fx(a: i64) -> (r: i64)
    ensures
        r as int == fx_neg(a as int),
{
    sub_fx(0, a)
}

/// Truncating division of a wide intermediate by a positive divisor.
pub(crate) fn dtz128(a: i128, b: i128) -> (r: i128)
    requires
        b > 0,
    ensures
        r as int == dtz(a as int, b as int),
        a >= 0 ==> 0 <= r <= a,
        a < 0 ==> a <= r <= 0,
{
    let q = a.checked_div(b);
    proof {
        lemma_dtz_bounds(a as int, b as int);
    }
    q.unwrap()
}

/// Truncating division shrinks the magnitude of the dividend, and agrees
/// with the machine's rounding-toward-zero quotient.
pub proof fn lemma_dtz_bounds(x: int, d: int)
    requires
        d > 0,
    ensures
        x >= 0 ==> 0 <= dtz(x, d) <= x,
        x < 0 ==> x <= dtz(x, d) <= 0,
        dtz(x, d) == if x == 0 {
            0int
        } else if x > 0 {
            x / d
        } else {
            ((x * -1) / d) * -1
        },
{
    if x >= 0 {
        vstd::arithmetic::div_mod::lemma_div_pos_is_pos(x, d);
        vstd::arithmetic::div_mod::lemma_div_nonincreasing(x, d);
    } else {
        vstd::arithmetic::div_mod::lemma_div_pos_is_pos(-x, d);
        vstd::arithmetic::div_mod::lemma_div_nonincreasing(-x, d);
        assert(x * -1 == -x);
    }
}

pub(crate) fn clamp128(q: i128) -> (r: i64)
    ensures
        r as int == sat64(q as int),
{
    if q > i64::MAX as i128 {
        i64::MAX
    } else if q < i64::MIN as i128 {
        i64::MIN
    } else {
        q as i64
    }
}

pub fn mul_fx(a: i64, b: i64) -> (r: i64)
    ensures
        r as int == fx_mul(a as int, b as int),
{
    proof {
        assert(a * b <= i128::MAX && a * b >= i128::MIN) by (nonlinear_arith)
            requires
                i64::MIN <= a <= i64::MAX,
                i64::MIN <= b <= i64::MAX,
        ;
    }
    let p: i128 = (a as i128) * (b as i128);
    let q = dtz128(p, FX_UNIT as i128);
    clamp128(q)
}

pub fn div_fx(a: i64, b: i64) -> (r: i64)
    requires
        b != 0,
    ensures
        r as int == fx_div(a as int, b as int),
{
    proof {
        assert(a * (FX_UNIT as int) <= i128::MAX && a * (FX_UNIT as int) >= i128::MIN)
            by (nonlinear_arith)
            requires
                i64::MIN <= a <= i64::MAX,
                FX_UNIT == 1000,
        ;
    }
    let p: i128 = (a as i128) * (FX_UNIT as i128);
    if b > 0 {
        let q = dtz128(p, b as i128);
        clamp128(q)
    } else {
        let q = dtz128(p, -(b as i128));
        clamp128(-q)
    }
}

/// Multiplying by the fixed-point unit is the identity.
pub proof fn lemma_fx_mul_unit(x: int)
    requires
        i64::MIN <= x <= i64::MAX,
    ensures
        fx_mul(FX_UNIT as int, x) == x,
        fx_mul(x, FX_UNIT as int) == x,
{
    let u = FX_UNIT as int;
    if x >= 0 {
        vstd::arithmetic::div_mod::lemma_div_multiples_vanish(x, u);
        assert(x * u == u * x) by (nonlinear_arith);
    } else {
        vstd::arithmetic::div_mod::lemma_div_multiples_vanish(-x, u);
        assert(-(u * x) == u * (-x) && -(x * u) == u * (-x)) by (nonlinear_arith);
    }
}

/// Multiplying by zero gives zero.
pub proof fn lemma_fx_mul_zero(y: int)
    ensures
        fx_mul(0, y) == 0,
        fx_mul(y, 0) == 0,
{
    let u = FX_UNIT as int;
    assert(0 * y == 0 && y * 0 == 0) by (nonlinear_arith);
    vstd::arithmetic::div_mod::lemma_div_multiples_vanish(0, u);
    assert(u * 0 == 0);
}

pub fn half_fx(a: i64) -> (r: i64)
    ensures
        r as int == fx_half(a as int),
{
    proof {
        lemma_dtz_bounds(a as int, 2);
    }
    a.checked_div(2).unwrap()
}

} // verus!
