//! The deferred-shading composition model.
//!
//! One frame draws every object's geometry into the staging targets, then
//! accumulates one additive contribution per light, and finally modulates
//! the decal color with the accumulated lighting.  The arithmetic model here
//! is what the passes must satisfy: additive accumulation of nonnegative
//! contributions does not depend on the order of the lights.

use vstd::prelude::*;
use crate::fixed::{fx_add, fx_mul, mul_fx};
use crate::matrix::{mat_entry, mm_fn, translation_entry, Matrix4D};
use crate::physical_object::{mt_entries, CPhysicalObject};
use crate::vec3::{v3_cross, v3_neg, v3_add, Vector3D};
use crate::world::{camera_pos, owner_ok, CWorld};

verus! {

/// The fixed sky color the geometry targets are cleared to.
pub open spec fn sky_color() -> Vector3D {
    Vector3D { x: 0, y: 700, z: 933 }
}

/// All channels of a color are nonnegative, as every real light
/// contribution is.
pub open spec fn channels_nonneg(c: Vector3D) -> bool {
    c.x >= 0 && c.y >= 0 && c.z >= 0
}

/// Additive blending, one contribution after another.
pub open spec fn acc_fold(base: Vector3D, s: Seq<Vector3D>) -> Vector3D
    decreases s.len(),
{
    if s.len() == 0 {
        base
    } else {
        v3_add(acc_fold(base, s.drop_last()), s.last())
    }
}

/// Accumulate every light contribution into the cleared lighting target.
pub fn accumulate(base: Vector3D, contribs: &Vec<Vector3D>) -> (r: Vector3D)
    ensures
        r == acc_fold(base, contribs@),
{
    let mut acc = base;
    let mut i: usize = 0;
    while i < contribs.len()
        invariant
            i <= contribs@.len(),
            acc == acc_fold(base, contribs@.subrange(0, i as int)),
        decreases contribs@.len() - i,
    {
        proof {
            assert(contribs@.subrange(0, i + 1).drop_last() =~= contribs@.subrange(0, i as int));
            assert(contribs@.subrange(0, i + 1).last() == contribs@[i as int]);
        }
        acc = acc.add(&contribs[i]);
        i += 1;
    }
    proof {
        assert(contribs@.subrange(0, contribs@.len() as int) =~= contribs@);
    }
    acc
}

/// The final composition: the decal color modulated by the accumulated
/// lighting, channel by channel.
pub open spec fn modulated(decal: Vector3D, light: Vector3D) -> Vector3D {
    Vector3D {
        x: fx_mul(decal.x as int, light.x as int) as i64,
        y: fx_mul(decal.y as int, light.y as int) as i64,
        z: fx_mul(decal.z as int, light.z as int) as i64,
    }
}

pub fn composite(decal: Vector3D, light: Vector3D) -> (r: Vector3D)
    ensures
        r == modulated(decal, light),
{
    Vector3D {
        x: mul_fx(decal.x, light.x),
        y: mul_fx(decal.y, light.y),
        z: mul_fx(decal.z, light.z),
    }
}

/// Accumulating two nonnegative light contributions in either order gives
/// the same lit value: additive blending is order-independent among lights.
pub proof fn lemma_light_order_independent(base: Vector3D, c1: Vector3D, c2: Vector3D)
    requires
        channels_nonneg(base),
        channels_nonneg(c1),
        channels_nonneg(c2),
    ensures
        acc_fold(base, seq![c1, c2]) == acc_fold(base, seq![c2, c1]),
{
    let a = seq![c1, c2];
    let b = seq![c2, c1];
    assert(a.drop_last() =~= seq![c1]);
    assert(b.drop_last() =~= seq![c2]);
    assert(seq![c1].drop_last() =~= Seq::<Vector3D>::empty());
    assert(seq![c2].drop_last() =~= Seq::<Vector3D>::empty());
    assert(acc_fold(base, Seq::<Vector3D>::empty()) == base);
    assert(acc_fold(base, seq![c1]) == v3_add(base, c1));
    assert(acc_fold(base, seq![c2]) == v3_add(base, c2));
    assert(acc_fold(base, a) == v3_add(v3_add(base, c1), c2));
    assert(acc_fold(base, b) == v3_add(v3_add(base, c2), c1));
    lemma_fx_add_swap(base.x as int, c1.x as int, c2.x as int);
    lemma_fx_add_swap(base.y as int, c1.y as int, c2.y as int);
    lemma_fx_add_swap(base.z as int, c1.z as int, c2.z as int);
}

/// With nonnegative operands only the upper bound can saturate, and two
/// additions reach it in either order.
proof fn lemma_fx_add_swap(a: int, b: int, c: int)
    requires
        a >= 0,
        b >= 0,
        c >= 0,
    ensures
        fx_add(fx_add(a, b), c) == fx_add(fx_add(a, c), b),
{
}

/// Entries of the view orientation built from the target and up vectors:
/// the side vector fills the first column, the up vector the second, the
/// negated target the third.
pub open spec fn view_rot_entry(trg: Vector3D, up: Vector3D) -> spec_fn(int, int) -> int {
    |i: int, j: int|
        {
            let u = v3_cross(up, trg);
            let n = v3_neg(trg);
            if j == 0 {
                if i == 0 {
                    u.x as int
                } else if i == 1 {
                    u.y as int
                } else if i == 2 {
                    u.z as int
                } else {
                    0int
                }
            } else if j == 1 {
                if i == 0 {
                    up.x as int
                } else if i == 1 {
                    up.y as int
                } else if i == 2 {
                    up.z as int
                } else {
                    0int
                }
            } else if j == 2 {
                if i == 0 {
                    n.x as int
                } else if i == 1 {
                    n.y as int
                } else if i == 2 {
                    n.z as int
                } else {
                    0int
                }
            } else {
                if i == 3 {
                    1000int
                } else {
                    0int
                }
            }
        }
}

/// Entries of the whole view transform: the world translated so the eye sits
/// at the origin, then reoriented.
pub open spec fn view_entries(w: CWorld) -> spec_fn(int, int) -> int {
    let t = |i: int, j: int| translation_entry(v3_neg(camera_pos(w)), i, j);
    |i: int, j: int| mm_fn(view_rot_entry(w.Camera.target, w.Camera.up), t, i, j)
}

/// A stored matrix whose entries agree with an object's model-to-world
/// transform.
pub open spec fn mt_matches(m: Matrix4D, o: CPhysicalObject) -> bool {
    forall|i: int, j: int|
        0 <= i < 4 && 0 <= j < 4 ==> #[trigger] mat_entry(m, i, j) == mt_entries(o)(i, j)
}

/// One frame's worth of draw requests, in the strict pass order: clear the
/// geometry targets to the sky color, draw every object, clear the lighting
/// target to the scene's ambient color, draw every point light and then
/// every directional light additively, and composite.
pub struct DrawPlan {
    pub clear_color: Vector3D,
    pub ambient: Vector3D,
    pub projection: Matrix4D,
    pub view: Matrix4D,
    pub model_matrices: Vec<Matrix4D>,
    pub point_lights: usize,
    pub dir_lights: usize,
}

impl CWorld {
    /// Lay out one frame: the model matrix of every object in order, then
    /// the point-light count and the directional-light count for the two
    /// additive lighting sections.
    pub fn draw(&self) -> (p: DrawPlan)
        requires
            owner_ok(self.Camera, self.objs@),
        ensures
            p.clear_color == sky_color(),
            p.ambient == self.changedProp.backgroundLightColor,
            p.projection == self.Camera.PerspectiveMatrix,
            forall|i: int, j: int|
                0 <= i < 4 && 0 <= j < 4 ==> #[trigger] mat_entry(p.view, i, j) == view_entries(
                    *self,
                )(i, j),
            p.model_matrices@.len() == self.objs@.len(),
            forall|k: int|
                0 <= k < self.objs@.len() ==> mt_matches(
                    #[trigger] p.model_matrices@[k],
                    self.objs@[k].physical_object,
                ),
            p.point_lights == self.lights@.len(),
            p.dir_lights == self.dirlights@.len(),
    {
        let eye = self.get_camera_pos();
        let cam_t = Matrix4D::Translation(&eye.neg());
        let cam_r = Matrix4D::InitCameraTransform(&self.Camera.target, &self.Camera.up);
        proof {
            assert(forall|i: int, j: int|
                0 <= i < 4 && 0 <= j < 4 ==> #[trigger] mat_entry(cam_r, i, j) == view_rot_entry(
                    self.Camera.target,
                    self.Camera.up,
                )(i, j));
        }
        let view = cam_r.mul(&cam_t);
        let mut mats: Vec<Matrix4D> = Vec::new();
        let mut i: usize = 0;
        while i < self.objs.len()
            invariant
                i <= self.objs@.len(),
                mats@.len() == i,
                forall|k: int|
                    0 <= k < i ==> mt_matches(
                        #[trigger] mats@[k],
                        self.objs@[k].physical_object,
                    ),
            decreases self.objs@.len() - i,
        {
            mats.push(self.objs[i].physical_object.getMT());
            i += 1;
        }
        DrawPlan {
            clear_color: Vector3D { x: 0, y: 700, z: 933 },
            ambient: self.changedProp.backgroundLightColor,
            projection: self.Camera.PerspectiveMatrix,
            view,
            model_matrices: mats,
            point_lights: self.lights.len(),
            dir_lights: self.dirlights.len(),
        }
    }
}

} // verus!
