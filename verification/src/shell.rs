//! Interval-based bounding shells.
//!
//! A shell is a box described by a center, a half-extent and a scale; unlike
//! the strict AABB test, shells that merely touch do count as intersecting.

use vstd::prelude::*;
use crate::fixed::{add_fx, fx_add, fx_mul, fx_sub, mul_fx, sub_fx};
use crate::vec3::Vector3D;

verus! {

#[derive(Clone, Copy, PartialEq, Eq, Structural, Debug)]
pub struct CShell {
    pub min_vertex: Vector3D,
    pub max_vertex: Vector3D,
}

/// Non-strict overlap of two intervals.
pub open spec fn spans_overlap(min1: int, max1: int, min2: int, max2: int) -> bool {
    min1 <= max2 && max1 >= min2
}

fn inters(min1: i64, max1: i64, min2: i64, max2: i64) -> (r: bool)
    ensures
        r == spans_overlap(min1 as int, max1 as int, min2 as int, max2 as int),
{
    if min1 > max2 {
        return false;
    }
    if max1 < min2 {
        return false;
    }
    true
}

/// The corner the shell constructor derives on each axis: the center offset
/// by the scaled half-extent.
pub open spec fn shell_corner(p: int, s: int, k: int, low: bool) -> int {
    if low {
        fx_sub(p, fx_mul(s, k))
    } else {
        fx_add(p, fx_mul(s, k))
    }
}

impl CShell {
    pub fn new(size: Vector3D, pos: Vector3D, scale: Vector3D) -> (r: CShell)
        ensures
            r.min_vertex.x as int == shell_corner(pos.x as int, size.x as int, scale.x as int, true),
            r.min_vertex.y as int == shell_corner(pos.y as int, size.y as int, scale.y as int, true),
            r.min_vertex.z as int == shell_corner(pos.z as int, size.z as int, scale.z as int, true),
            r.max_vertex.x as int == shell_corner(
                pos.x as int,
                size.x as int,
                scale.x as int,
                false,
            ),
            r.max_vertex.y as int == shell_corner(
                pos.y as int,
                size.y as int,
                scale.y as int,
                false,
            ),
            r.max_vertex.z as int == shell_corner(
                pos.z as int,
                size.z as int,
                scale.z as int,
                false,
            ),
    {
        CShell {
            min_vertex: Vector3D {
                x: sub_fx(pos.x, mul_fx(size.x, scale.x)),
                y: sub_fx(pos.y, mul_fx(size.y, scale.y)),
                z: sub_fx(pos.z, mul_fx(size.z, scale.z)),
            },
            max_vertex: Vector3D {
                x: add_fx(pos.x, mul_fx(size.x, scale.x)),
                y: add_fx(pos.y, mul_fx(size.y, scale.y)),
                z: add_fx(pos.z, mul_fx(size.z, scale.z)),
            },
        }
    }

    /// Non-strict overlap on all three axes.
    pub fn inters(&self, other: &CShell) -> (r: bool)
        ensures
            r == (spans_overlap(
                self.min_vertex.x as int,
                self.max_vertex.x as int,
                other.min_vertex.x as int,
                other.max_vertex.x as int,
            ) && spans_overlap(
                self.min_vertex.y as int,
                self.max_vertex.y as int,
                other.min_vertex.y as int,
                other.max_vertex.y as int,
            ) && spans_overlap(
                self.min_vertex.z as int,
                self.max_vertex.z as int,
                other.min_vertex.z as int,
                other.max_vertex.z as int,
            )),
    {
        if !inters(self.min_vertex.x, self.max_vertex.x, other.min_vertex.x, other.max_vertex.x) {
            return false;
        }
        if !inters(self.min_vertex.y, self.max_vertex.y, other.min_vertex.y, other.max_vertex.y) {
            return false;
        }
        if !inters(self.min_vertex.z, self.max_vertex.z, other.min_vertex.z, other.max_vertex.z) {
            return false;
        }
        true
    }
}

} // verus!
