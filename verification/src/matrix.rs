//! 4x4 fixed-point transform matrices.
//!
//! The layout follows the row-vector convention of the rest of the engine:
//! a point is carried as a row, translation sits in `matrix[3]`, and
//! composition `a.mul(b)` places `a` on the left.

use vstd::prelude::*;
use crate::fixed::{add_fx, div_fx, fx_add, fx_div, fx_mul, fx_neg, fx_sub, mul_fx, neg_fx, sub_fx};
use crate::vec3::{v3_neg, Vector3D};

verus! {

#[derive(Clone, Copy, Debug)]
pub struct Matrix4D {
    pub matrix: [[i64; 4]; 4],
}

pub open spec fn mat_entry(m: Matrix4D, i: int, j: int) -> int {
    m.matrix[i][j] as int
}

/// One entry of the matrix product: row direction runs over the first index.
pub open spec fn mm_fn(
    a: spec_fn(int, int) -> int,
    b: spec_fn(int, int) -> int,
    i: int,
    j: int,
) -> int {
    fx_add(
        fx_add(
            fx_add(fx_mul(a(0, j), b(i, 0)), fx_mul(a(1, j), b(i, 1))),
            fx_mul(a(2, j), b(i, 2)),
        ),
        fx_mul(a(3, j), b(i, 3)),
    )
}

pub open spec fn entries_of(m: Matrix4D) -> spec_fn(int, int) -> int {
    |i: int, j: int| mat_entry(m, i, j)
}

pub open spec fn mm_entry(a: Matrix4D, b: Matrix4D, i: int, j: int) -> int {
    mm_fn(entries_of(a), entries_of(b), i, j)
}

pub open spec fn identity_entry(i: int, j: int) -> int {
    if i == j {
        1000int
    } else {
        0int
    }
}

pub open spec fn translation_entry(v: Vector3D, i: int, j: int) -> int {
    if i == 3 && j == 0 {
        v.x as int
    } else if i == 3 && j == 1 {
        v.y as int
    } else if i == 3 && j == 2 {
        v.z as int
    } else {
        identity_entry(i, j)
    }
}

pub open spec fn scale_entry(v: Vector3D, i: int, j: int) -> int {
    if i == 0 && j == 0 {
        v.x as int
    } else if i == 1 && j == 1 {
        v.y as int
    } else if i == 2 && j == 2 {
        v.z as int
    } else {
        identity_entry(i, j)
    }
}

/// Rotation about the X axis from a sine/cosine pair.
pub open spec fn rot_x_entry(s: int, c: int) -> spec_fn(int, int) -> int {
    |i: int, j: int|
        {
            if i == 1 && j == 1 {
                c
            } else if i == 1 && j == 2 {
                fx_neg(s)
            } else if i == 2 && j == 1 {
                s
            } else if i == 2 && j == 2 {
                c
            } else {
                identity_entry(i, j)
            }
        }
}

/// Rotation about the Y axis from a sine/cosine pair.
pub open spec fn rot_y_entry(s: int, c: int) -> spec_fn(int, int) -> int {
    |i: int, j: int|
        {
            if i == 0 && j == 0 {
                c
            } else if i == 0 && j == 2 {
                fx_neg(s)
            } else if i == 2 && j == 0 {
                s
            } else if i == 2 && j == 2 {
                c
            } else {
                identity_entry(i, j)
            }
        }
}

/// Rotation about the Z axis from a sine/cosine pair.
pub open spec fn rot_z_entry(s: int, c: int) -> spec_fn(int, int) -> int {
    |i: int, j: int|
        {
            if i == 0 && j == 0 {
                c
            } else if i == 0 && j == 1 {
                fx_neg(s)
            } else if i == 1 && j == 0 {
                s
            } else if i == 1 && j == 1 {
                c
            } else {
                identity_entry(i, j)
            }
        }
}

/// Entries of the combined Euler rotation, composed as Rx * Ry * Rz.
pub open spec fn rotate_entry(
    sx: int,
    cx: int,
    sy: int,
    cy: int,
    sz: int,
    cz: int,
) -> spec_fn(int, int) -> int {
    let xy = |i: int, j: int| mm_fn(rot_x_entry(sx, cx), rot_y_entry(sy, cy), i, j);
    |i: int, j: int| mm_fn(xy, rot_z_entry(sz, cz), i, j)
}

/// A point transformed as a row vector: the translation row contributes
/// directly.
pub open spec fn transform_entry(m: Matrix4D, v: Vector3D, j: int) -> int {
    fx_add(
        fx_add(
            fx_add(
                fx_mul(mat_entry(m, 0, j), v.x as int),
                fx_mul(mat_entry(m, 1, j), v.y as int),
            ),
            fx_mul(mat_entry(m, 2, j), v.z as int),
        ),
        mat_entry(m, 3, j),
    )
}

pub open spec fn transformed(m: Matrix4D, v: Vector3D) -> Vector3D {
    Vector3D {
        x: transform_entry(m, v, 0) as i64,
        y: transform_entry(m, v, 1) as i64,
        z: transform_entry(m, v, 2) as i64,
    }
}

/// The same point transform, over an entry function instead of a stored
/// matrix.
pub open spec fn transform_entry_fn(e: spec_fn(int, int) -> int, v: Vector3D, j: int) -> int {
    fx_add(
        fx_add(
            fx_add(fx_mul(e(0, j), v.x as int), fx_mul(e(1, j), v.y as int)),
            fx_mul(e(2, j), v.z as int),
        ),
        e(3, j),
    )
}

pub open spec fn transformed_fn(e: spec_fn(int, int) -> int, v: Vector3D) -> Vector3D {
    Vector3D {
        x: transform_entry_fn(e, v, 0) as i64,
        y: transform_entry_fn(e, v, 1) as i64,
        z: transform_entry_fn(e, v, 2) as i64,
    }
}

/// A stored matrix that agrees pointwise with an entry function transforms
/// points identically.
pub proof fn lemma_transform_agrees(m: Matrix4D, e: spec_fn(int, int) -> int, v: Vector3D)
    requires
        forall|i: int, j: int| 0 <= i < 4 && 0 <= j < 4 ==> #[trigger] mat_entry(m, i, j) == e(i, j),
    ensures
        transformed(m, v) == transformed_fn(e, v),
{
}

/// The identity matrix leaves every point in place.
pub proof fn lemma_identity_transform(m: Matrix4D, v: Vector3D)
    requires
        forall|i: int, j: int|
            0 <= i < 4 && 0 <= j < 4 ==> #[trigger] mat_entry(m, i, j) == identity_entry(i, j),
    ensures
        transformed(m, v) == v,
{
    crate::fixed::lemma_fx_mul_unit(v.x as int);
    crate::fixed::lemma_fx_mul_unit(v.y as int);
    crate::fixed::lemma_fx_mul_unit(v.z as int);
    crate::fixed::lemma_fx_mul_zero(v.x as int);
    crate::fixed::lemma_fx_mul_zero(v.y as int);
    crate::fixed::lemma_fx_mul_zero(v.z as int);
}

impl Matrix4D {
    #[allow(non_snake_case)]
    pub fn InitIdentity() -> (r: Matrix4D)
        ensures
            forall|i: int, j: int|
                0 <= i < 4 && 0 <= j < 4 ==> #[trigger] mat_entry(r, i, j) == identity_entry(i, j),
    {
        let m = [
            [1000i64, 0, 0, 0],
            [0i64, 1000, 0, 0],
            [0i64, 0, 1000, 0],
            [0i64, 0, 0, 1000],
        ];
        Matrix4D { matrix: m }
    }

    #[allow(non_snake_case)]
    pub fn Translation(vecPos: &Vector3D) -> (r: Matrix4D)
        ensures
            forall|i: int, j: int|
                0 <= i < 4 && 0 <= j < 4 ==> #[trigger] mat_entry(r, i, j) == translation_entry(
                    *vecPos,
                    i,
                    j,
                ),
    {
        let m = [
            [1000i64, 0, 0, 0],
            [0i64, 1000, 0, 0],
            [0i64, 0, 1000, 0],
            [vecPos.x, vecPos.y, vecPos.z, 1000],
        ];
        Matrix4D { matrix: m }
    }

    #[allow(non_snake_case)]
    pub fn Scale(vecScale: &Vector3D) -> (r: Matrix4D)
        ensures
            forall|i: int, j: int|
                0 <= i < 4 && 0 <= j < 4 ==> #[trigger] mat_entry(r, i, j) == scale_entry(
                    *vecScale,
                    i,
                    j,
                ),
    {
        let m = [
            [vecScale.x, 0, 0, 0],
            [0i64, vecScale.y, 0, 0],
            [0i64, 0, vecScale.z, 0],
            [0i64, 0, 0, 1000],
        ];
        Matrix4D { matrix: m }
    }

    /// Combined Euler rotation built as Rx * Ry * Rz; the caller supplies the
    /// sine and cosine of each axis angle as fixed-point scalars.
    #[allow(non_snake_case)]
    pub fn Rotate(sx: i64, cx: i64, sy: i64, cy: i64, sz: i64, cz: i64) -> (r: Matrix4D)
        ensures
            forall|i: int, j: int|
                0 <= i < 4 && 0 <= j < 4 ==> #[trigger] mat_entry(r, i, j) == rotate_entry(
                    sx as int,
                    cx as int,
                    sy as int,
                    cy as int,
                    sz as int,
                    cz as int,
                )(i, j),
    {
        let x = Matrix4D {
            matrix: [
                [1000i64, 0, 0, 0],
                [0i64, cx, neg_fx(sx), 0],
                [0i64, sx, cx, 0],
                [0i64, 0, 0, 1000],
            ],
        };
        let y = Matrix4D {
            matrix: [
                [cy, 0, neg_fx(sy), 0],
                [0i64, 1000, 0, 0],
                [sy, 0, cy, 0],
                [0i64, 0, 0, 1000],
            ],
        };
        let z = Matrix4D {
            matrix: [
                [cz, neg_fx(sz), 0, 0],
                [sz, cz, 0, 0],
                [0i64, 0, 1000, 0],
                [0i64, 0, 0, 1000],
            ],
        };
        proof {
            assert(forall|i: int, j: int|
                0 <= i < 4 && 0 <= j < 4 ==> #[trigger] mat_entry(x, i, j) == rot_x_entry(
                    sx as int,
                    cx as int,
                )(i, j));
            assert(forall|i: int, j: int|
                0 <= i < 4 && 0 <= j < 4 ==> #[trigger] mat_entry(y, i, j) == rot_y_entry(
                    sy as int,
                    cy as int,
                )(i, j));
            assert(forall|i: int, j: int|
                0 <= i < 4 && 0 <= j < 4 ==> #[trigger] mat_entry(z, i, j) == rot_z_entry(
                    sz as int,
                    cz as int,
                )(i, j));
        }
        x.mul(&y).mul(&z)
    }

    /// Perspective projection; the caller supplies the tangent of half the
    /// field-of-view angle as a fixed-point scalar.
    #[allow(non_snake_case)]
    pub fn PerspectiveMatrix(tanHalfFOV: i64, width: i64, height: i64, near: i64, far: i64) -> (r:
        Matrix4D)
        requires
            height > 0,
            near != far,
            fx_mul(fx_div(width as int, height as int), tanHalfFOV as int) != 0,
            tanHalfFOV != 0,
        ensures
            mat_entry(r, 0, 0) == fx_div(
                1000,
                fx_mul(fx_div(width as int, height as int), tanHalfFOV as int),
            ),
            mat_entry(r, 1, 1) == fx_div(1000, tanHalfFOV as int),
            mat_entry(r, 2, 2) == fx_div(
                fx_sub(fx_neg(near as int), far as int),
                fx_sub(near as int, far as int),
            ),
            mat_entry(r, 2, 3) == 1000,
            mat_entry(r, 3, 2) == fx_div(
                fx_mul(2000, fx_mul(far as int, near as int)),
                fx_sub(near as int, far as int),
            ),
            mat_entry(r, 0, 1) == 0 && mat_entry(r, 0, 2) == 0 && mat_entry(r, 0, 3) == 0,
            mat_entry(r, 1, 0) == 0 && mat_entry(r, 1, 2) == 0 && mat_entry(r, 1, 3) == 0,
            mat_entry(r, 2, 0) == 0 && mat_entry(r, 2, 1) == 0,
            mat_entry(r, 3, 0) == 0 && mat_entry(r, 3, 1) == 0 && mat_entry(r, 3, 3) == 0,
    {
        let ar = div_fx(width, height);
        let range = sub_fx(near, far);
        let denom = mul_fx(ar, tanHalfFOV);
        let m = [
            [div_fx(1000, denom), 0, 0, 0],
            [0i64, div_fx(1000, tanHalfFOV), 0, 0],
            [0i64, 0, div_fx(sub_fx(neg_fx(near), far), range), 1000],
            [0i64, 0, div_fx(mul_fx(2000, mul_fx(far, near)), range), 0],
        ];
        Matrix4D { matrix: m }
    }

    /// View orientation from the target and up vectors, as the original
    /// renderer builds it: side vector from `up x target`, negated target as
    /// the depth axis.
    #[allow(non_snake_case)]
    pub fn InitCameraTransform(Target: &Vector3D, Up: &Vector3D) -> (r: Matrix4D)
        ensures
            ({
                let u = crate::vec3::v3_cross(*Up, *Target);
                let n = v3_neg(*Target);
                mat_entry(r, 0, 0) == u.x && mat_entry(r, 1, 0) == u.y && mat_entry(r, 2, 0) == u.z
                    && mat_entry(r, 0, 1) == Up.x && mat_entry(r, 1, 1) == Up.y && mat_entry(
                    r,
                    2,
                    1,
                ) == Up.z && mat_entry(r, 0, 2) == n.x && mat_entry(r, 1, 2) == n.y && mat_entry(
                    r,
                    2,
                    2,
                ) == n.z && mat_entry(r, 3, 0) == 0 && mat_entry(r, 3, 1) == 0 && mat_entry(
                    r,
                    3,
                    2,
                ) == 0 && mat_entry(r, 0, 3) == 0 && mat_entry(r, 1, 3) == 0 && mat_entry(r, 2, 3)
                    == 0 && mat_entry(r, 3, 3) == 1000
            }),
    {
        let n = Target.neg();
        let u = Up.cross(Target);
        let m = [
            [u.x, Up.x, n.x, 0],
            [u.y, Up.y, n.y, 0],
            [u.z, Up.z, n.z, 0],
            [0i64, 0, 0, 1000],
        ];
        Matrix4D { matrix: m }
    }

    pub fn mul(&self, other: &Matrix4D) -> (r: Matrix4D)
        ensures
            forall|i: int, j: int|
                0 <= i < 4 && 0 <= j < 4 ==> #[trigger] mat_entry(r, i, j) == mm_entry(
                    *self,
                    *other,
                    i,
                    j,
                ),
    {
        let mut rows: [[i64; 4]; 4] = [[0i64, 0, 0, 0], [0i64, 0, 0, 0], [0i64, 0, 0, 0], [
            0i64,
            0,
            0,
            0,
        ]];
        let mut i: usize = 0;
        while i < 4
            invariant
                0 <= i <= 4,
                forall|i2: int, j2: int|
                    0 <= i2 < i && 0 <= j2 < 4 ==> rows[i2][j2] as int == mm_entry(
                        *self,
                        *other,
                        i2,
                        j2,
                    ),
            decreases 4 - i,
        {
            let mut row: [i64; 4] = [0i64, 0, 0, 0];
            let mut j: usize = 0;
            while j < 4
                invariant
                    0 <= j <= 4,
                    0 <= i < 4,
                    forall|j2: int|
                        0 <= j2 < j ==> row[j2] as int == mm_entry(*self, *other, i as int, j2),
                decreases 4 - j,
            {
                let e = add_fx(
                    add_fx(
                        add_fx(
                            mul_fx(self.matrix[0][j], other.matrix[i][0]),
                            mul_fx(self.matrix[1][j], other.matrix[i][1]),
                        ),
                        mul_fx(self.matrix[2][j], other.matrix[i][2]),
                    ),
                    mul_fx(self.matrix[3][j], other.matrix[i][3]),
                );
                row[j] = e;
                j += 1;
            }
            rows[i] = row;
            i += 1;
        }
        Matrix4D { matrix: rows }
    }

    /// Apply the transform to a point carried as a row vector.
    pub fn transform(&self, v: &Vector3D) -> (r: Vector3D)
        ensures
            r == transformed(*self, *v),
    {
        Vector3D {
            x: add_fx(
                add_fx(
                    add_fx(mul_fx(self.matrix[0][0], v.x), mul_fx(self.matrix[1][0], v.y)),
                    mul_fx(self.matrix[2][0], v.z),
                ),
                self.matrix[3][0],
            ),
            y: add_fx(
                add_fx(
                    add_fx(mul_fx(self.matrix[0][1], v.x), mul_fx(self.matrix[1][1], v.y)),
                    mul_fx(self.matrix[2][1], v.z),
                ),
                self.matrix[3][1],
            ),
            z: add_fx(
                add_fx(
                    add_fx(mul_fx(self.matrix[0][2], v.x), mul_fx(self.matrix[1][2], v.y)),
                    mul_fx(self.matrix[2][2], v.z),
                ),
                self.matrix[3][2],
            ),
        }
    }
}

} // verus!
