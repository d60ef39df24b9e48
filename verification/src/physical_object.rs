//! Simulation state of one object: kinematic integration, one-step rollback,
//! and the world-space bounding box used for collision detection.

use vstd::prelude::*;
use crate::fixed::{fx_div, fx_half, fx_mul, half_fx, mul_fx, div_fx};
use crate::geometry::{aabb_overlap, cloud_max, cloud_min, inters, AABB};
use crate::matrix::{
    mm_fn, rotate_entry, scale_entry, transformed_fn, translation_entry, Matrix4D,
};
use crate::models::CModel;
use crate::trig::{cos_e, cos_fx, sin_e, sin_fx};
use crate::vec3::{v3_add, v3_scale, v3_sub, v3_zero, Vector3D};

verus! {

pub struct CPhysicalObject {
    pub position: Vector3D,
    pub old_position: Vector3D,
    pub scale: Vector3D,
    pub rotate: Vector3D,
    pub speed: Vector3D,
    pub power: Vector3D,
    pub coords: Vec<Vector3D>,
    pub inds: Vec<u32>,
    pub size: Vector3D,
    pub weight: i64,
    pub movable: bool,
}

/// Acceleration: accumulated force times the reciprocal of the mass.
pub open spec fn accel_of(o: CPhysicalObject) -> Vector3D
    recommends
        o.weight != 0,
{
    v3_scale(o.power, fx_div(1000, o.weight as int))
}

/// Position after one tick: `p + v*t + a*t^2/2`, each step on the saturating
/// fixed-point grid.
pub open spec fn new_position(o: CPhysicalObject, t: int) -> Vector3D {
    v3_add(
        v3_add(o.position, v3_scale(o.speed, t)),
        v3_scale(accel_of(o), fx_half(fx_mul(t, t))),
    )
}

/// Speed after one tick: `v + a*t` for movable objects; static objects keep
/// their stored speed.
pub open spec fn new_speed(o: CPhysicalObject, t: int) -> Vector3D {
    if o.movable {
        v3_add(o.speed, v3_scale(accel_of(o), t))
    } else {
        o.speed
    }
}

/// The whole object after one `update` tick.
pub open spec fn updated(o: CPhysicalObject, t: int) -> CPhysicalObject {
    CPhysicalObject {
        position: new_position(o, t),
        old_position: o.position,
        scale: o.scale,
        rotate: o.rotate,
        speed: new_speed(o, t),
        power: o.power,
        coords: o.coords,
        inds: o.inds,
        size: o.size,
        weight: o.weight,
        movable: o.movable,
    }
}

/// The whole object after a `rollback`.
pub open spec fn rolled(o: CPhysicalObject) -> CPhysicalObject {
    CPhysicalObject {
        position: o.old_position,
        old_position: o.old_position,
        scale: o.scale,
        rotate: o.rotate,
        speed: o.speed,
        power: o.power,
        coords: o.coords,
        inds: o.inds,
        size: o.size,
        weight: o.weight,
        movable: o.movable,
    }
}

/// Entries of the model-to-world matrix: translation, then scale, then the
/// Euler rotation derived from the stored angles.
pub open spec fn mt_entries(o: CPhysicalObject) -> spec_fn(int, int) -> int {
    let t = |i: int, j: int| translation_entry(o.position, i, j);
    let s = |i: int, j: int| scale_entry(o.scale, i, j);
    let r = rotate_entry(
        sin_fx(o.rotate.x as int),
        cos_fx(o.rotate.x as int),
        sin_fx(o.rotate.y as int),
        cos_fx(o.rotate.y as int),
        sin_fx(o.rotate.z as int),
        cos_fx(o.rotate.z as int),
    );
    let ts = |i: int, j: int| mm_fn(t, s, i, j);
    |i: int, j: int| mm_fn(ts, r, i, j)
}

/// The world-space bounding box of an object's point cloud under its current
/// transform.
#[verifier::opaque]
pub open spec fn po_box(o: CPhysicalObject) -> AABB {
    AABB {
        minV: transformed_fn(mt_entries(o), cloud_min(o.coords@)),
        maxV: transformed_fn(mt_entries(o), cloud_max(o.coords@)),
    }
}

impl CPhysicalObject {
    pub fn new(mdl: &CModel, weight: i64) -> (r: CPhysicalObject)
        requires
            weight != 0,
        ensures
            r.position == v3_zero(),
            r.old_position == v3_zero(),
            r.scale == (Vector3D { x: 1000, y: 1000, z: 1000 }),
            r.rotate == v3_zero(),
            r.speed == v3_zero(),
            r.power == v3_zero(),
            r.coords@ == mdl.coords@,
            r.inds@ == mdl.inds@,
            r.size == v3_sub(cloud_max(mdl.coords@), cloud_min(mdl.coords@)),
            r.weight == weight,
            !r.movable,
    {
        let coords = mdl.coords.clone();
        let identity = Matrix4D::InitIdentity();
        let sb = AABB::new(&coords, identity);
        proof {
            crate::matrix::lemma_identity_transform(identity, cloud_min(coords@));
            crate::matrix::lemma_identity_transform(identity, cloud_max(coords@));
        }
        let size = sb.maxV.sub(&sb.minV);

        CPhysicalObject {
            position: Vector3D { x: 0, y: 0, z: 0 },
            old_position: Vector3D { x: 0, y: 0, z: 0 },
            scale: Vector3D { x: 1000, y: 1000, z: 1000 },
            rotate: Vector3D { x: 0, y: 0, z: 0 },
            speed: Vector3D { x: 0, y: 0, z: 0 },
            power: Vector3D { x: 0, y: 0, z: 0 },
            coords,
            inds: mdl.inds.clone(),
            size,
            weight,
            movable: false,
        }
    }

    /// The model-to-world matrix for the current position, scale and
    /// rotation.
    #[allow(non_snake_case)]
    pub fn getMT(&self) -> (r: Matrix4D)
        ensures
            forall|i: int, j: int|
                0 <= i < 4 && 0 <= j < 4 ==> #[trigger] crate::matrix::mat_entry(r, i, j)
                    == mt_entries(*self)(i, j),
    {
        let t = Matrix4D::Translation(&self.position);
        let s = Matrix4D::Scale(&self.scale);
        let rot = Matrix4D::Rotate(
            sin_e(self.rotate.x),
            cos_e(self.rotate.x),
            sin_e(self.rotate.y),
            cos_e(self.rotate.y),
            sin_e(self.rotate.z),
            cos_e(self.rotate.z),
        );
        t.mul(&s).mul(&rot)
    }

    /// Accumulate force; a no-op on objects that are not movable.
    pub fn add_power(&mut self, power: &Vector3D)
        ensures
            final(self).power == if old(self).movable {
                v3_add(old(self).power, *power)
            } else {
                old(self).power
            },
            final(self).position == old(self).position,
            final(self).old_position == old(self).old_position,
            final(self).scale == old(self).scale,
            final(self).rotate == old(self).rotate,
            final(self).speed == old(self).speed,
            final(self).coords == old(self).coords,
            final(self).inds == old(self).inds,
            final(self).size == old(self).size,
            final(self).weight == old(self).weight,
            final(self).movable == old(self).movable,
    {
        if !self.movable {
            return ;
        }
        self.power = self.power.add(power);
    }

    /// Accumulate speed; a no-op on objects that are not movable.
    pub fn add_speed(&mut self, speed: &Vector3D)
        ensures
            final(self).speed == if old(self).movable {
                v3_add(old(self).speed, *speed)
            } else {
                old(self).speed
            },
            final(self).position == old(self).position,
            final(self).old_position == old(self).old_position,
            final(self).scale == old(self).scale,
            final(self).rotate == old(self).rotate,
            final(self).power == old(self).power,
            final(self).coords == old(self).coords,
            final(self).inds == old(self).inds,
            final(self).size == old(self).size,
            final(self).weight == old(self).weight,
            final(self).movable == old(self).movable,
    {
        if !self.movable {
            return ;
        }
        self.speed = self.speed.add(speed);
    }

    /// Reset the accumulated force for a fresh tick.
    pub fn init(&mut self)
        ensures
            final(self).power == v3_zero(),
            final(self).position == old(self).position,
            final(self).old_position == old(self).old_position,
            final(self).scale == old(self).scale,
            final(self).rotate == old(self).rotate,
            final(self).speed == old(self).speed,
            final(self).coords == old(self).coords,
            final(self).inds == old(self).inds,
            final(self).size == old(self).size,
            final(self).weight == old(self).weight,
            final(self).movable == old(self).movable,
    {
        self.power = Vector3D { x: 0, y: 0, z: 0 };
    }

    /// Revert the position to its value at the start of the last tick; the
    /// speed is kept.
    pub fn rollback(&mut self)
        ensures
            *final(self) == rolled(*old(self)),
    {
        self.position = self.old_position;
    }

    /// Collision response beyond rollback is deliberately absent.
    pub fn collision(&self, _other: &CPhysicalObject) {
    }

    /// One integration tick of `time` fixed-point seconds.
    pub fn update(&mut self, time: i64)
        requires
            old(self).weight != 0,
        ensures
            *final(self) == updated(*old(self), time as int),
    {
        let recip = div_fx(1000, self.weight);
        let a = self.power.scale(recip);

        self.old_position = self.position;
        let pos = self.position.add(&self.speed.scale(time)).add(
            &a.scale(half_fx(mul_fx(time, time))),
        );
        self.add_speed(&a.scale(time));
        self.position = pos;
    }
}

impl inters<CPhysicalObject> for CPhysicalObject {
    /// Strict overlap of the two world-space bounding boxes.
    open spec fn inters_spec(&self, other: &CPhysicalObject) -> bool {
        aabb_overlap(po_box(*self), po_box(*other))
    }

    fn intersect_with(&self, other: &CPhysicalObject) -> (r: bool)
        ensures
            r == self.inters_spec(other),
    {
        let m1 = self.getMT();
        let m2 = other.getMT();
        let shell1 = AABB::new(&self.coords, m1);
        let shell2 = AABB::new(&other.coords, m2);
        proof {
            reveal(po_box);
            crate::matrix::lemma_transform_agrees(m1, mt_entries(*self), cloud_min(self.coords@));
            crate::matrix::lemma_transform_agrees(m1, mt_entries(*self), cloud_max(self.coords@));
            crate::matrix::lemma_transform_agrees(
                m2,
                mt_entries(*other),
                cloud_min(other.coords@),
            );
            crate::matrix::lemma_transform_agrees(
                m2,
                mt_entries(*other),
                cloud_max(other.coords@),
            );
        }
        shell1.intersect_with(&shell2)
    }
}

/// A rollback right after an update restores the position the tick started
/// from, whatever the elapsed time was.
pub proof fn lemma_rollback_inverts_update(o: CPhysicalObject, t: int)
    ensures
        rolled(updated(o, t)).position == o.position,
{
}

/// Rolling back twice without an intervening update changes nothing more:
/// the stored history is one step deep.
pub proof fn lemma_rollback_idempotent(o: CPhysicalObject)
    ensures
        rolled(rolled(o)) == rolled(o),
{
}

/// Objects that are not movable never gain speed from a tick; their position
/// still advances by the stored speed.
pub proof fn lemma_static_gate(o: CPhysicalObject, t: int)
    requires
        !o.movable,
    ensures
        updated(o, t).speed == o.speed,
        updated(o, t).position == v3_add(
            v3_add(o.position, v3_scale(o.speed, t)),
            v3_scale(accel_of(o), fx_half(fx_mul(t, t))),
        ),
{
}

} // verus!
