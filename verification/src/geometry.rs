//! Axis-aligned bounding boxes.
//!
//! A box is built from the extremes of a local point cloud, with both corners
//! then carried through the object's world transform.  The overlap test is
//! strict on every axis: boxes that merely touch do not intersect.

use vstd::prelude::*;
use crate::matrix::{transformed, Matrix4D};
use crate::vec3::Vector3D;

verus! {

/// Seed magnitude for the corner scan: components start out at a bound no
/// in-range point cloud exceeds.
pub const CLOUD_BOUND: i64 = 100_000_000;

#[allow(non_camel_case_types)]
pub trait inters<T> {
    spec fn inters_spec(&self, other: &T) -> bool;

    fn intersect_with(&self, other: &T) -> (r: bool)
        ensures
            r == self.inters_spec(other),
    ;
}

#[derive(Clone, Copy, PartialEq, Eq, Structural, Debug)]
pub struct AABB {
    #[allow(non_snake_case)]
    pub minV: Vector3D,
    #[allow(non_snake_case)]
    pub maxV: Vector3D,
}

/// Componentwise minimum, keeping the accumulator on ties.
pub open spec fn comp_min(a: Vector3D, v: Vector3D) -> Vector3D {
    Vector3D {
        x: if v.x < a.x {
            v.x
        } else {
            a.x
        },
        y: if v.y < a.y {
            v.y
        } else {
            a.y
        },
        z: if v.z < a.z {
            v.z
        } else {
            a.z
        },
    }
}

/// Componentwise maximum, keeping the accumulator on ties.
pub open spec fn comp_max(a: Vector3D, v: Vector3D) -> Vector3D {
    Vector3D {
        x: if v.x > a.x {
            v.x
        } else {
            a.x
        },
        y: if v.y > a.y {
            v.y
        } else {
            a.y
        },
        z: if v.z > a.z {
            v.z
        } else {
            a.z
        },
    }
}

pub open spec fn min_seed() -> Vector3D {
    Vector3D { x: CLOUD_BOUND, y: CLOUD_BOUND, z: CLOUD_BOUND }
}

pub open spec fn max_seed() -> Vector3D {
    Vector3D {
        x: (-CLOUD_BOUND) as i64,
        y: (-CLOUD_BOUND) as i64,
        z: (-CLOUD_BOUND) as i64,
    }
}

/// Componentwise minimum over a point cloud, starting from the seed corner.
pub open spec fn cloud_min(s: Seq<Vector3D>) -> Vector3D
    decreases s.len(),
{
    if s.len() == 0 {
        min_seed()
    } else {
        comp_min(cloud_min(s.drop_last()), s.last())
    }
}

/// Componentwise maximum over a point cloud, starting from the seed corner.
pub open spec fn cloud_max(s: Seq<Vector3D>) -> Vector3D
    decreases s.len(),
{
    if s.len() == 0 {
        max_seed()
    } else {
        comp_max(cloud_max(s.drop_last()), s.last())
    }
}

/// Strict six-inequality overlap: boxes sharing only a face, edge or corner
/// do not count as intersecting.
pub open spec fn aabb_overlap(a: AABB, b: AABB) -> bool {
    &&& a.minV.x < b.maxV.x
    &&& a.maxV.x > b.minV.x
    &&& a.minV.y < b.maxV.y
    &&& a.maxV.y > b.minV.y
    &&& a.minV.z < b.maxV.z
    &&& a.maxV.z > b.minV.z
}

impl AABB {
    /// Bounding corners of the local point cloud, carried through the world
    /// transform.
    #[allow(non_snake_case)]
    pub fn new(coords: &Vec<Vector3D>, MWorld: Matrix4D) -> (r: AABB)
        ensures
            r.minV == transformed(MWorld, cloud_min(coords@)),
            r.maxV == transformed(MWorld, cloud_max(coords@)),
    {
        let mut min = Vector3D { x: CLOUD_BOUND, y: CLOUD_BOUND, z: CLOUD_BOUND };
        let mut max = Vector3D { x: -CLOUD_BOUND, y: -CLOUD_BOUND, z: -CLOUD_BOUND };

        let mut idx: usize = 0;
        while idx < coords.len()
            invariant
                0 <= idx <= coords.len(),
                min == cloud_min(coords@.subrange(0, idx as int)),
                max == cloud_max(coords@.subrange(0, idx as int)),
            decreases coords.len() - idx,
        {
            let v = coords[idx];
            proof {
                assert(coords@.subrange(0, idx + 1).drop_last() =~= coords@.subrange(
                    0,
                    idx as int,
                ));
                assert(coords@.subrange(0, idx + 1).last() == coords@[idx as int]);
            }
            if v.x < min.x {
                min.x = v.x;
            }
            if v.y < min.y {
                min.y = v.y;
            }
            if v.z < min.z {
                min.z = v.z;
            }
            if v.x > max.x {
                max.x = v.x;
            }
            if v.y > max.y {
                max.y = v.y;
            }
            if v.z > max.z {
                max.z = v.z;
            }
            idx += 1;
        }
        proof {
            assert(coords@.subrange(0, coords@.len() as int) =~= coords@);
        }
        AABB { minV: MWorld.transform(&min), maxV: MWorld.transform(&max) }
    }
}

impl inters<AABB> for AABB {
    open spec fn inters_spec(&self, other: &AABB) -> bool {
        aabb_overlap(*self, *other)
    }

    fn intersect_with(&self, other: &AABB) -> (r: bool)
        ensures
            r == self.inters_spec(other),
    {
        (self.minV.x < other.maxV.x && self.maxV.x > other.minV.x) && (self.minV.y < other.maxV.y
            && self.maxV.y > other.minV.y) && (self.minV.z < other.maxV.z && self.maxV.z
            > other.minV.z)
    }
}

/// The overlap test does not depend on the order of its operands.
pub proof fn lemma_aabb_overlap_symmetric(a: AABB, b: AABB)
    ensures
        aabb_overlap(a, b) == aabb_overlap(b, a),
{
}

/// Boxes that share a boundary coordinate on some axis merely touch, and do
/// not intersect.
pub proof fn lemma_aabb_touching_not_overlap(a: AABB, b: AABB)
    requires
        a.maxV.x == b.minV.x || a.minV.x == b.maxV.x || a.maxV.y == b.minV.y || a.minV.y == b.maxV.y
            || a.maxV.z == b.minV.z || a.minV.z == b.maxV.z,
    ensures
        !aabb_overlap(a, b),
{
}

} // verus!
