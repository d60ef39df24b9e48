//! The camera: a perspective projection, an orientation derived from
//! accumulated mouse angles, and a tagged handle naming the entity whose
//! position it tracks.  The handle is an index into the world's entity
//! table, never a second owner.

use vstd::prelude::*;
use crate::fixed::{add_fx, div_fx, fx_add, fx_div, fx_half, fx_mul, fx_sub, half_fx, sub_fx};
use crate::input::Event;
use crate::matrix::Matrix4D;
use crate::trig::{cos_e, cos_fx, deg_to_rad, deg_to_rad_e, sin_e, sin_fx};
use crate::vec3::{v3_cross, v3_rotate, v3_scale, Vector3D};

verus! {

/// A planar fixed-point pair: accumulated angles, pointer coordinates.
#[derive(Clone, Copy, PartialEq, Eq, Structural, Debug)]
pub struct Point {
    pub x: i64,
    pub y: i64,
}

/// Which entity currently supplies the camera's tracked position.
#[derive(Clone, Copy, PartialEq, Eq, Structural, Debug)]
pub enum CameraOwner {
    Default,
    Viewer,
    Object(usize),
}

pub struct CCamera {
    #[allow(non_snake_case)]
    pub PerspectiveMatrix: Matrix4D,
    pub target: Vector3D,
    pub up: Vector3D,
    pub player: CameraOwner,
    pub angle: Point,
    #[allow(non_snake_case)]
    pub mousePos: Point,
    pub shift: Vector3D,
    pub dist: i64,
}

/// The tangent of half the fixed 60-degree field of view, in thousandths.
pub const TAN_HALF_FOV: i64 = 577;

/// One pointer-motion step: the delta from the stored pointer position,
/// with a dead zone of 1.2 pixels, accumulated into the angles at a twentieth
/// of a degree per pixel; the vertical angle is clamped to a quarter turn.
pub open spec fn angle_after_move(angle: Point, mouse: Point, x: int, y: int) -> Point {
    let dx0 = fx_sub(mouse.x as int, x);
    let dy0 = fx_sub(mouse.y as int, y);
    let dx = if -1200 < dx0 < 1200 {
        0int
    } else {
        dx0
    };
    let dy = if -1200 < dy0 < 1200 {
        0int
    } else {
        dy0
    };
    let ax = fx_add(angle.x as int, fx_div(dx, 20000));
    let ay0 = fx_add(angle.y as int, fx_div(dy, 20000));
    let ay = if ay0 > 90000 {
        90000int
    } else if ay0 < -90000 {
        -90000int
    } else {
        ay0
    };
    Point { x: ax as i64, y: ay as i64 }
}

/// The orientation derived from the accumulated angles: a unit-depth view
/// vector turned about the vertical axis, then about the resulting
/// horizontal axis.
pub open spec fn orientation_of(angle: Point) -> (Vector3D, Vector3D) {
    let vaxis = Vector3D { x: 0, y: 1000, z: 0 };
    let tx = deg_to_rad(fx_half(angle.x as int));
    let view1 = v3_rotate(
        Vector3D { x: 0, y: 0, z: 1000 },
        sin_fx(tx),
        cos_fx(tx),
        vaxis,
    );
    let haxis = v3_cross(vaxis, view1);
    let ty = deg_to_rad(fx_half(angle.y as int));
    let view2 = v3_rotate(view1, sin_fx(ty), cos_fx(ty), haxis);
    (view2, v3_cross(view2, haxis))
}

impl CCamera {
    pub fn new(trg: Vector3D, up: Vector3D, w: i64, h: i64) -> (r: CCamera)
        requires
            h > 0,
            fx_mul(fx_div(w as int, h as int), TAN_HALF_FOV as int) != 0,
        ensures
            r.target == trg,
            r.up == up,
            r.player is Default,
            r.angle == (Point { x: 0, y: 0 }),
            r.mousePos == (Point {
                x: fx_half(fx_mul(w as int, 1000)) as i64,
                y: fx_half(fx_mul(h as int, 1000)) as i64,
            }),
            r.shift == (Vector3D { x: 0, y: 0, z: 0 }),
            r.dist == 2000,
    {
        let persp = Matrix4D::PerspectiveMatrix(TAN_HALF_FOV, w, h, 10, 100000);
        CCamera {
            PerspectiveMatrix: persp,
            target: trg,
            up,
            player: CameraOwner::Default,
            angle: Point { x: 0, y: 0 },
            mousePos: Point {
                x: half_fx(crate::fixed::mul_fx(w, 1000)),
                y: half_fx(crate::fixed::mul_fx(h, 1000)),
            },
            shift: Vector3D { x: 0, y: 0, z: 0 },
            dist: 2000,
        }
    }

    /// Bind the camera to a new subject; any swap is legal at any time.
    #[allow(non_snake_case)]
    pub fn SetOwner(&mut self, player: CameraOwner, size: Vector3D)
        ensures
            final(self).player == player,
            final(self).shift == v3_scale(size, 500),
            final(self).target == old(self).target,
            final(self).up == old(self).up,
            final(self).angle == old(self).angle,
            final(self).mousePos == old(self).mousePos,
            final(self).dist == old(self).dist,
            final(self).PerspectiveMatrix == old(self).PerspectiveMatrix,
    {
        self.shift = size.scale(500);
        self.player = player;
    }

    /// The eye point: the subject's position, pushed back along the view
    /// direction by the distance factor scaled with half the subject's size.
    #[allow(non_snake_case)]
    pub fn GetPos(&self, owner_pos: Vector3D) -> (r: Vector3D)
        ensures
            r == crate::vec3::v3_add(
                owner_pos,
                v3_scale(v3_scale(self.target, self.dist as int), self.shift.y as int),
            ),
    {
        owner_pos.add(&self.target.scale(self.dist).scale(self.shift.y))
    }

    /// Fold one pointer event into the accumulated angles or the wheel
    /// distance; every other event changes nothing.
    #[allow(non_snake_case)]
    pub fn onMouseMove(&mut self, event: &Event)
        ensures
            final(self).angle == match *event {
                Event::MouseMoved(x, y) => angle_after_move(
                    old(self).angle,
                    old(self).mousePos,
                    x as int,
                    y as int,
                ),
                _ => old(self).angle,
            },
            final(self).dist as int == match *event {
                Event::MouseWheel(y) => fx_add(old(self).dist as int, fx_div(y as int, 10000)),
                _ => old(self).dist as int,
            },
            final(self).target == old(self).target,
            final(self).up == old(self).up,
            final(self).player == old(self).player,
            final(self).mousePos == old(self).mousePos,
            final(self).shift == old(self).shift,
            final(self).PerspectiveMatrix == old(self).PerspectiveMatrix,
    {
        match *event {
            Event::MouseMoved(x, y) => {
                let mut dx = sub_fx(self.mousePos.x, x);
                let mut dy = sub_fx(self.mousePos.y, y);
                if -1200 < dx && dx < 1200 {
                    dx = 0;
                }
                if -1200 < dy && dy < 1200 {
                    dy = 0;
                }
                let ax = add_fx(self.angle.x, div_fx(dx, 20000));
                let mut ay = add_fx(self.angle.y, div_fx(dy, 20000));
                if ay > 90000 {
                    ay = 90000;
                }
                if ay < -90000 {
                    ay = -90000;
                }
                self.angle = Point { x: ax, y: ay };
            },
            Event::MouseWheel(y) => {
                self.dist = add_fx(self.dist, div_fx(y, 10000));
            },
            _ => {},
        }
    }

    /// Recompute the view orientation from the accumulated angles.
    pub fn update(&mut self)
        ensures
            final(self).target == orientation_of(old(self).angle).0,
            final(self).up == orientation_of(old(self).angle).1,
            final(self).angle == old(self).angle,
            final(self).player == old(self).player,
            final(self).mousePos == old(self).mousePos,
            final(self).shift == old(self).shift,
            final(self).dist == old(self).dist,
            final(self).PerspectiveMatrix == old(self).PerspectiveMatrix,
    {
        let vaxis = Vector3D { x: 0, y: 1000, z: 0 };
        let mut view = Vector3D { x: 0, y: 0, z: 1000 };

        let tx = deg_to_rad_e(half_fx(self.angle.x));
        view.rotate(sin_e(tx), cos_e(tx), &vaxis);

        let haxis = vaxis.cross(&view);
        let ty = deg_to_rad_e(half_fx(self.angle.y));
        view.rotate(sin_e(ty), cos_e(ty), &haxis);

        self.target = view;
        self.up = view.cross(&haxis);
    }
}

} // verus!
