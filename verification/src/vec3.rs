//! Three-component fixed-point vectors and quaternion rotation.
//!
//! Components are fixed-point scalars (see `fixed`); every operation is the
//! saturating, truncating counterpart of the usual Euclidean one, stated
//! exactly by a spec function.

use vstd::prelude::*;
use crate::fixed::{
    add_fx, div_fx, fx_add, fx_div, fx_mul, fx_neg, fx_sub, mul_fx, neg_fx, sat64, sub_fx,
};

verus! {

#[derive(Clone, Copy, PartialEq, Eq, Structural, Debug)]
pub struct Vector3D {
    pub x: i64,
    pub y: i64,
    pub z: i64,
}

pub open spec fn v3_zero() -> Vector3D {
    Vector3D { x: 0, y: 0, z: 0 }
}

pub open spec fn v3_add(a: Vector3D, b: Vector3D) -> Vector3D {
    Vector3D {
        x: fx_add(a.x as int, b.x as int) as i64,
        y: fx_add(a.y as int, b.y as int) as i64,
        z: fx_add(a.z as int, b.z as int) as i64,
    }
}

pub open spec fn v3_sub(a: Vector3D, b: Vector3D) -> Vector3D {
    Vector3D {
        x: fx_sub(a.x as int, b.x as int) as i64,
        y: fx_sub(a.y as int, b.y as int) as i64,
        z: fx_sub(a.z as int, b.z as int) as i64,
    }
}

pub open spec fn v3_neg(a: Vector3D) -> Vector3D {
    Vector3D {
        x: fx_neg(a.x as int) as i64,
        y: fx_neg(a.y as int) as i64,
        z: fx_neg(a.z as int) as i64,
    }
}

/// Componentwise product with a fixed-point scalar.
pub open spec fn v3_scale(a: Vector3D, k: int) -> Vector3D {
    Vector3D {
        x: fx_mul(a.x as int, k) as i64,
        y: fx_mul(a.y as int, k) as i64,
        z: fx_mul(a.z as int, k) as i64,
    }
}

pub open spec fn v3_dot(a: Vector3D, b: Vector3D) -> int {
    fx_add(
        fx_add(fx_mul(a.x as int, b.x as int), fx_mul(a.y as int, b.y as int)),
        fx_mul(a.z as int, b.z as int),
    )
}

pub open spec fn v3_cross(a: Vector3D, b: Vector3D) -> Vector3D {
    Vector3D {
        x: fx_sub(fx_mul(a.y as int, b.z as int), fx_mul(a.z as int, b.y as int)) as i64,
        y: fx_sub(fx_mul(a.z as int, b.x as int), fx_mul(a.x as int, b.z as int)) as i64,
        z: fx_sub(fx_mul(a.x as int, b.y as int), fx_mul(a.y as int, b.x as int)) as i64,
    }
}

/// Clamp a wide intermediate into the `i128` range.
pub open spec fn sat128(x: int) -> int {
    if x > i128::MAX {
        i128::MAX as int
    } else if x < i128::MIN {
        i128::MIN as int
    } else {
        x
    }
}

/// Sum of the squared components, accumulated with wide saturation.
pub open spec fn v3_sq_sum(v: Vector3D) -> int {
    sat128(sat128(v.x * v.x + v.y * v.y) + v.z * v.z)
}

pub open spec fn is_sqrt(n: int, r: int) -> bool {
    0 <= r && r * r <= n && n < (r + 1) * (r + 1)
}

/// The integer square root (rounded down) of a nonnegative integer.
pub open spec fn sqrt_of(n: int) -> int
    recommends
        n >= 0,
{
    choose|r: int| is_sqrt(n, r)
}

/// Euclidean length of a vector, rounded down to the fixed-point grid.
pub open spec fn v3_len(v: Vector3D) -> int {
    sat64(sqrt_of(v3_sq_sum(v)))
}

/// A vector scaled to unit length; the zero vector stays zero instead of
/// producing an undefined direction.
pub open spec fn v3_normalize(v: Vector3D) -> Vector3D {
    if v3_len(v) == 0 {
        v3_zero()
    } else {
        Vector3D {
            x: fx_div(v.x as int, v3_len(v)) as i64,
            y: fx_div(v.y as int, v3_len(v)) as i64,
            z: fx_div(v.z as int, v3_len(v)) as i64,
        }
    }
}

proof fn lemma_sqrt_unique(n: int, r1: int, r2: int)
    requires
        is_sqrt(n, r1),
        is_sqrt(n, r2),
    ensures
        r1 == r2,
{
    assert(r1 == r2) by (nonlinear_arith)
        requires
            0 <= r1 && r1 * r1 <= n && n < (r1 + 1) * (r1 + 1),
            0 <= r2 && r2 * r2 <= n && n < (r2 + 1) * (r2 + 1),
    ;
}

/// Whenever some root satisfies `is_sqrt`, it is the value of `sqrt_of`.
proof fn lemma_sqrt_is(n: int, r: int)
    requires
        is_sqrt(n, r),
    ensures
        sqrt_of(n) == r,
{
    let picked = choose|s: int| is_sqrt(n, s);
    lemma_sqrt_unique(n, picked, r);
}

/// Binary search for the integer square root of a wide unsigned value.
fn isqrt_u128(n: u128) -> (r: u128)
    ensures
        is_sqrt(n as int, r as int),
        r as int == sqrt_of(n as int),
{
    let mut lo: u128 = 0;
    let mut hi: u128 = 0x1_0000_0000_0000_0000;
    proof {
        assert((hi as int) * (hi as int) > n as int) by (nonlinear_arith)
            requires
                hi == 0x1_0000_0000_0000_0000,
                n <= u128::MAX,
        ;
    }
    while lo + 1 < hi
        invariant
            0 <= lo < hi <= 0x1_0000_0000_0000_0000,
            lo * lo <= n,
            (hi as int) * (hi as int) > n as int,
        decreases hi - lo,
    {
        let mid = lo + (hi - lo) / 2;
        proof {
            assert(mid * mid <= u128::MAX) by (nonlinear_arith)
                requires
                    0 <= mid < 0x1_0000_0000_0000_0000,
            ;
        }
        if mid * mid <= n {
            lo = mid;
        } else {
            hi = mid;
        }
    }
    proof {
        lemma_sqrt_is(n as int, lo as int);
    }
    lo
}

impl Vector3D {
    pub fn new(nx: i64, ny: i64, nz: i64) -> (r: Vector3D)
        ensures
            r == (Vector3D { x: nx, y: ny, z: nz }),
    {
        Vector3D { x: nx, y: ny, z: nz }
    }

    pub fn add(&self, v: &Vector3D) -> (r: Vector3D)
        ensures
            r == v3_add(*self, *v),
    {
        Vector3D { x: add_fx(self.x, v.x), y: add_fx(self.y, v.y), z: add_fx(self.z, v.z) }
    }

    pub fn sub(&self, v: &Vector3D) -> (r: Vector3D)
        ensures
            r == v3_sub(*self, *v),
    {
        Vector3D { x: sub_fx(self.x, v.x), y: sub_fx(self.y, v.y), z: sub_fx(self.z, v.z) }
    }

    pub fn neg(&self) -> (r: Vector3D)
        ensures
            r == v3_neg(*self),
    {
        Vector3D { x: neg_fx(self.x), y: neg_fx(self.y), z: neg_fx(self.z) }
    }

    pub fn scale(&self, k: i64) -> (r: Vector3D)
        ensures
            r == v3_scale(*self, k as int),
    {
        Vector3D { x: mul_fx(self.x, k), y: mul_fx(self.y, k), z: mul_fx(self.z, k) }
    }

    pub fn dot(&self, v: &Vector3D) -> (r: i64)
        ensures
            r as int == v3_dot(*self, *v),
    {
        add_fx(add_fx(mul_fx(self.x, v.x), mul_fx(self.y, v.y)), mul_fx(self.z, v.z))
    }

    pub fn cross(&self, v: &Vector3D) -> (r: Vector3D)
        ensures
            r == v3_cross(*self, *v),
    {
        Vector3D {
            x: sub_fx(mul_fx(self.y, v.z), mul_fx(self.z, v.y)),
            y: sub_fx(mul_fx(self.z, v.x), mul_fx(self.x, v.z)),
            z: sub_fx(mul_fx(self.x, v.y), mul_fx(self.y, v.x)),
        }
    }

    pub fn length(&self) -> (r: i64)
        ensures
            r as int == v3_len(*self),
            r >= 0,
    {
        proof {
            assert(self.x * self.x <= i128::MAX && self.y * self.y <= i128::MAX && self.z
                * self.z <= i128::MAX && self.x * self.x >= 0 && self.y * self.y >= 0 && self.z
                * self.z >= 0) by (nonlinear_arith)
                requires
                    i64::MIN <= self.x <= i64::MAX,
                    i64::MIN <= self.y <= i64::MAX,
                    i64::MIN <= self.z <= i64::MAX,
            ;
        }
        let sx: i128 = (self.x as i128) * (self.x as i128);
        let sy: i128 = (self.y as i128) * (self.y as i128);
        let sz: i128 = (self.z as i128) * (self.z as i128);
        let sxy: i128 = match sx.checked_add(sy) {
            Some(v) => v,
            None => i128::MAX,
        };
        let s: i128 = match sxy.checked_add(sz) {
            Some(v) => v,
            None => i128::MAX,
        };
        let root = isqrt_u128(s as u128);
        if root > i64::MAX as u128 {
            i64::MAX
        } else {
            root as i64
        }
    }

    pub fn normalize(self) -> (r: Vector3D)
        ensures
            r == v3_normalize(self),
    {
        let len = self.length();
        if len == 0 {
            return Vector3D { x: 0, y: 0, z: 0 };
        }
        Vector3D { x: div_fx(self.x, len), y: div_fx(self.y, len), z: div_fx(self.z, len) }
    }

    /// Projection onto the horizontal plane, rescaled to unit length.
    #[allow(non_snake_case)]
    pub fn projectionXOZ(&self) -> (r: Vector3D)
        ensures
            r == v3_normalize(Vector3D { x: self.x, y: 0, z: self.z }),
    {
        let flat = Vector3D { x: self.x, y: 0, z: self.z };
        flat.normalize()
    }

    /// Axis-angle rotation by quaternion conjugation; the caller supplies the
    /// sine and cosine of half the turn angle as fixed-point scalars.
    pub fn rotate(&mut self, sin_half: i64, cos_half: i64, axis: &Vector3D)
        ensures
            *final(self) == v3_rotate(*old(self), sin_half as int, cos_half as int, *axis),
    {
        let q = Quaternion { a: cos_half, vector: axis.scale(sin_half) };
        let p = Quaternion { a: 0, vector: *self };
        let rotated = q.mul(&p).mul(&q.neg());
        *self = rotated.vector;
    }
}

/// The normalized length is zero exactly for the zero vector.
pub proof fn lemma_len_zero_iff_zero(v: Vector3D)
    ensures
        v3_len(v) == 0 <==> v == v3_zero(),
{
    assert(v.x * v.x >= 0 && v.y * v.y >= 0 && v.z * v.z >= 0 && (v.x != 0 ==> v.x * v.x >= 1)
        && (v.y != 0 ==> v.y * v.y >= 1) && (v.z != 0 ==> v.z * v.z >= 1)) by (nonlinear_arith)
        requires
            i64::MIN <= v.x <= i64::MAX,
            i64::MIN <= v.y <= i64::MAX,
            i64::MIN <= v.z <= i64::MAX,
    ;
    let s = v3_sq_sum(v);
    if v == v3_zero() {
        assert(0 * 0 == 0 && (0 + 1) * (0 + 1) == 1) by (nonlinear_arith);
        assert(is_sqrt(0, 0));
        lemma_sqrt_is(0, 0);
    } else {
        assert(s >= 1);
        let r = sqrt_of(s);
        assert(is_sqrt(s, r)) by {
            lemma_sqrt_exists(s);
        }
        assert(r != 0) by (nonlinear_arith)
            requires
                0 <= r && r * r <= s && s < (r + 1) * (r + 1),
                s >= 1,
        ;
    }
}

/// Every nonnegative integer in the wide range has an integer square root.
proof fn lemma_sqrt_exists(n: int)
    requires
        0 <= n <= i128::MAX,
    ensures
        is_sqrt(n, sqrt_of(n)),
{
    let cap = 0x1_0000_0000_0000_0000int;
    lemma_sqrt_exists_below(n, cap);
    let r = choose|r: int| is_sqrt(n, r);
    assert(is_sqrt(n, r));
}

/// There is a root below any bound whose square exceeds `n`.
proof fn lemma_sqrt_exists_below(n: int, hi: int)
    requires
        0 <= n,
        hi >= 1,
        hi * hi > n,
    ensures
        exists|r: int| is_sqrt(n, r),
    decreases hi,
{
    if (hi - 1) * (hi - 1) <= n {
        assert(is_sqrt(n, hi - 1));
    } else {
        if hi - 1 >= 1 {
            lemma_sqrt_exists_below(n, hi - 1);
        } else {
            assert((hi - 1) * (hi - 1) == 0) by (nonlinear_arith)
                requires
                    hi == 1,
            ;
            assert(false);
        }
    }
}

//---------------------------------------------------------------------------
// Quaternions, used only to carry out axis-angle rotation.
//---------------------------------------------------------------------------

#[derive(Clone, Copy, PartialEq, Eq, Structural, Debug)]
pub struct Quaternion {
    pub vector: Vector3D,
    pub a: i64,
}

pub open spec fn q_mul(p: Quaternion, q: Quaternion) -> Quaternion {
    Quaternion {
        a: fx_sub(
            fx_sub(
                fx_sub(
                    fx_mul(p.a as int, q.a as int),
                    fx_mul(p.vector.x as int, q.vector.x as int),
                ),
                fx_mul(p.vector.y as int, q.vector.y as int),
            ),
            fx_mul(p.vector.z as int, q.vector.z as int),
        ) as i64,
        vector: Vector3D {
            x: fx_sub(
                fx_add(
                    fx_add(
                        fx_mul(p.vector.x as int, q.a as int),
                        fx_mul(p.a as int, q.vector.x as int),
                    ),
                    fx_mul(p.vector.y as int, q.vector.z as int),
                ),
                fx_mul(p.vector.z as int, q.vector.y as int),
            ) as i64,
            y: fx_sub(
                fx_add(
                    fx_add(
                        fx_mul(p.vector.y as int, q.a as int),
                        fx_mul(p.a as int, q.vector.y as int),
                    ),
                    fx_mul(p.vector.z as int, q.vector.x as int),
                ),
                fx_mul(p.vector.x as int, q.vector.z as int),
            ) as i64,
            z: fx_sub(
                fx_add(
                    fx_add(
                        fx_mul(p.vector.z as int, q.a as int),
                        fx_mul(p.a as int, q.vector.z as int),
                    ),
                    fx_mul(p.vector.x as int, q.vector.y as int),
                ),
                fx_mul(p.vector.y as int, q.vector.x as int),
            ) as i64,
        },
    }
}

pub open spec fn q_neg(q: Quaternion) -> Quaternion {
    Quaternion { a: q.a, vector: v3_neg(q.vector) }
}

/// The image of `v` under conjugation with the rotation quaternion built from
/// `axis` and the half-angle sine/cosine pair.
pub open spec fn v3_rotate(v: Vector3D, sin_half: int, cos_half: int, axis: Vector3D) -> Vector3D {
    let q = Quaternion { a: cos_half as i64, vector: v3_scale(axis, sin_half) };
    q_mul(q_mul(q, Quaternion { a: 0, vector: v }), q_neg(q)).vector
}

impl Quaternion {
    pub fn mul(&self, other: &Quaternion) -> (r: Quaternion)
        ensures
            r == q_mul(*self, *other),
    {
        let a = sub_fx(
            sub_fx(
                sub_fx(mul_fx(self.a, other.a), mul_fx(self.vector.x, other.vector.x)),
                mul_fx(self.vector.y, other.vector.y),
            ),
            mul_fx(self.vector.z, other.vector.z),
        );
        let x = sub_fx(
            add_fx(
                add_fx(mul_fx(self.vector.x, other.a), mul_fx(self.a, other.vector.x)),
                mul_fx(self.vector.y, other.vector.z),
            ),
            mul_fx(self.vector.z, other.vector.y),
        );
        let y = sub_fx(
            add_fx(
                add_fx(mul_fx(self.vector.y, other.a), mul_fx(self.a, other.vector.y)),
                mul_fx(self.vector.z, other.vector.x),
            ),
            mul_fx(self.vector.x, other.vector.z),
        );
        let z = sub_fx(
            add_fx(
                add_fx(mul_fx(self.vector.z, other.a), mul_fx(self.a, other.vector.z)),
                mul_fx(self.vector.x, other.vector.y),
            ),
            mul_fx(self.vector.y, other.vector.x),
        );
        Quaternion { a, vector: Vector3D { x, y, z } }
    }

    pub fn neg(&self) -> (r: Quaternion)
        ensures
            r == q_neg(*self),
    {
        Quaternion { a: self.a, vector: self.vector.neg() }
    }
}

} // verus!
