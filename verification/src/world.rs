//! The world: every game object, light, texture binding and the camera,
//! with the update tick (integrate, then detect overlaps pairwise and roll
//! the mover back) and the scene save/load format.

use vstd::prelude::*;
use crate::camera::{CCamera, CameraOwner};
use crate::codec::{fmt_int, fmt_int_e, parse_int, parse_int_e};
use crate::game_object::{object_repr, object_speed, parse_object, CGameObject};
use crate::geometry::{aabb_overlap, inters};
use crate::input::{ElementState, Event, MouseButton, VirtualKeyCode};
use crate::light::{
    dirlight_repr, light_repr, parse_dirlight, parse_light, CDirectionLight, CLight,
};
use crate::models::CModel;
use crate::physical_object::{accel_of, new_position, po_box, rolled, updated, CPhysicalObject};
use crate::texture::{parse_texture, texture_repr, CTexture};
use crate::tokens::{join_by, join_by_e, split_by, split_by_e};
use crate::vec3::{v3_add, v3_normalize, v3_scale, v3_sub, v3_zero, Vector3D};
use crate::viewer::{dir_after_key, parse_viewer, viewer_repr, viewer_speed, CViewer};

verus! {

/// Pending edits an overlay hands the world: the ambient background color
/// and the color new lights are born with.
pub struct ChangedProperties {
    #[allow(non_snake_case)]
    pub backgroundLightColor: Vector3D,
    #[allow(non_snake_case)]
    pub lightColor: Vector3D,
}

impl ChangedProperties {
    pub fn new() -> (r: ChangedProperties)
        ensures
            r.backgroundLightColor == (Vector3D { x: 1, y: 1, z: 1 }),
            r.lightColor == (Vector3D { x: 1000, y: 0, z: 0 }),
    {
        ChangedProperties {
            backgroundLightColor: Vector3D { x: 1, y: 1, z: 1 },
            lightColor: Vector3D { x: 1000, y: 0, z: 0 },
        }
    }
}

pub struct CWorld {
    #[allow(non_snake_case)]
    pub Camera: CCamera,
    #[allow(non_snake_case)]
    pub Viewer: CViewer,
    pub objs: Vec<CGameObject>,
    pub lights: Vec<CLight>,
    pub dirlights: Vec<CDirectionLight>,
    #[allow(non_snake_case)]
    pub changedProp: ChangedProperties,
    pub textures: Vec<CTexture>,
}

//---------------------------------------------------------------------------
// The update tick.
//---------------------------------------------------------------------------

pub open spec fn obj_weights_ok(objs: Seq<CGameObject>) -> bool {
    forall|i: int| 0 <= i < objs.len() ==> #[trigger] objs[i].physical_object.weight != 0
}

pub open spec fn obj_updated(o: CGameObject, t: int) -> CGameObject {
    CGameObject {
        physical_object: updated(o.physical_object, t),
        model_name: o.model_name,
        texture_id: o.texture_id,
        dir: o.dir,
    }
}

pub open spec fn obj_rolled(o: CGameObject) -> CGameObject {
    CGameObject {
        physical_object: rolled(o.physical_object),
        model_name: o.model_name,
        texture_id: o.texture_id,
        dir: o.dir,
    }
}

/// Every object advanced by one integration step.
pub open spec fn integrated(objs: Seq<CGameObject>, t: int) -> Seq<CGameObject> {
    Seq::new(objs.len(), |i: int| obj_updated(objs[i], t))
}

/// Whether object `i` overlaps any other object in the current state.
pub open spec fn hits_any(objs: Seq<CGameObject>, i: int) -> bool {
    exists|j: int|
        0 <= j < objs.len() && j != i && aabb_overlap(
            po_box(objs[i].physical_object),
            po_box(#[trigger] objs[j].physical_object),
        )
}

/// Scan the objects in index order; each one that overlaps some other
/// object in the state reached so far is rolled back before the scan moves
/// on.  A rolled-back object is not re-checked.
pub open spec fn resolved_from(objs: Seq<CGameObject>, i: nat) -> Seq<CGameObject>
    decreases objs.len() - i,
{
    if i >= objs.len() {
        objs
    } else {
        let objs2 = if hits_any(objs, i as int) {
            objs.update(i as int, obj_rolled(objs[i as int]))
        } else {
            objs
        };
        resolved_from(objs2, i + 1)
    }
}

/// One whole physics tick over the object list.
pub open spec fn world_tick(objs: Seq<CGameObject>, t: int) -> Seq<CGameObject> {
    resolved_from(integrated(objs, t), 0)
}

//---------------------------------------------------------------------------
// The scene file: viewer line, counts line, then texture, object, point
// light and directional light lines, newline-separated.
//---------------------------------------------------------------------------

pub open spec fn counts_fields(t: int, o: int, l: int, d: int) -> Seq<Seq<u8>> {
    seq![fmt_int(t), fmt_int(o), fmt_int(l), fmt_int(d)]
}

pub open spec fn counts_repr(t: int, o: int, l: int, d: int) -> Seq<u8> {
    join_by(counts_fields(t, o, l, d), 32)
}

pub open spec fn parse_counts(s: Seq<u8>) -> Option<(int, int, int, int)> {
    let ts = split_by(s, 32);
    if ts.len() == 4 && (forall|k: int| 0 <= k < 4 ==> parse_int(#[trigger] ts[k]) is Some)
        && (forall|k: int| 0 <= k < 4 ==> crate::light::opt_val(parse_int(#[trigger] ts[k])) >= 0) {
        Some(
            (
                crate::light::opt_val(parse_int(ts[0])),
                crate::light::opt_val(parse_int(ts[1])),
                crate::light::opt_val(parse_int(ts[2])),
                crate::light::opt_val(parse_int(ts[3])),
            ),
        )
    } else {
        None
    }
}

/// All the records of a scene, one line each, in fixed section order.
pub open spec fn scene_lines(w: CWorld) -> Seq<Seq<u8>> {
    seq![
        viewer_repr(w.Viewer.pos),
        counts_repr(
            w.textures@.len() as int,
            w.objs@.len() as int,
            w.lights@.len() as int,
            w.dirlights@.len() as int,
        ),
    ] + Seq::new(w.textures@.len(), |i: int| texture_repr(w.textures@[i].path@, w.textures@[i].id as int))
        + Seq::new(w.objs@.len(), |i: int| object_repr(w.objs@[i])) + Seq::new(
        w.lights@.len(),
        |i: int| light_repr(w.lights@[i]),
    ) + Seq::new(w.dirlights@.len(), |i: int| dirlight_repr(w.dirlights@[i]))
}

pub open spec fn scene_repr(w: CWorld) -> Seq<u8> {
    join_by(scene_lines(w), 10)
}

pub open spec fn tex_val(o: Option<(Seq<u8>, int)>) -> (Seq<u8>, int) {
    match o {
        Some(v) => v,
        None => (Seq::empty(), 0),
    }
}

pub open spec fn obj_val(o: Option<(int, Vector3D, Vector3D, Vector3D)>) -> (
    int,
    Vector3D,
    Vector3D,
    Vector3D,
) {
    match o {
        Some(v) => v,
        None => (0, v3_zero(), v3_zero(), v3_zero()),
    }
}

pub open spec fn light_val(o: Option<CLight>) -> CLight {
    match o {
        Some(v) => v,
        None => crate::light::light_from(Seq::new(10, |k: int| 0)),
    }
}

pub open spec fn dirlight_val(o: Option<CDirectionLight>) -> CDirectionLight {
    match o {
        Some(v) => v,
        None => crate::light::dirlight_from(Seq::new(6, |k: int| 0)),
    }
}

/// The texture identifiers declared by a scene's texture lines, in order.
pub open spec fn ids_of(lines: Seq<Seq<u8>>, t: int) -> Seq<i64> {
    Seq::new(t as nat, |i: int| tex_val(parse_texture(lines[2 + i])).1 as i64)
}

/// A whole scene parsed back: the viewer position, the texture table, each
/// object's binding and motion state, and both light lists.  Any missing or
/// malformed field rejects the whole file.
pub open spec fn parse_scene(s: Seq<u8>) -> Option<
    (
        Vector3D,
        Seq<(Seq<u8>, int)>,
        Seq<(int, Vector3D, Vector3D, Vector3D)>,
        Seq<CLight>,
        Seq<CDirectionLight>,
    ),
> {
    let lines = split_by(s, 10);
    if lines.len() < 2 {
        None
    } else {
        match (parse_viewer(lines[0]), parse_counts(lines[1])) {
            (Some(vp), Some((t, o, l, d))) => {
                let ids = ids_of(lines, t);
                if lines.len() == 2 + t + o + l + d && (forall|i: int|
                    0 <= i < t ==> parse_texture(#[trigger] lines[2 + i]) is Some) && (forall|
                    i: int,
                |
                    0 <= i < o ==> parse_object(#[trigger] lines[2 + t + i], ids) is Some) && (
                forall|i: int|
                    0 <= i < l ==> parse_light(#[trigger] lines[2 + t + o + i]) is Some) && (
                forall|i: int|
                    0 <= i < d ==> parse_dirlight(#[trigger] lines[2 + t + o + l + i]) is Some) {
                    Some(
                        (
                            vp,
                            Seq::new(t as nat, |i: int| tex_val(parse_texture(lines[2 + i]))),
                            Seq::new(
                                o as nat,
                                |i: int| obj_val(parse_object(lines[2 + t + i], ids)),
                            ),
                            Seq::new(l as nat, |i: int| light_val(parse_light(lines[2 + t + o + i]))),
                            Seq::new(
                                d as nat,
                                |i: int| dirlight_val(parse_dirlight(lines[2 + t + o + l + i])),
                            ),
                        ),
                    )
                } else {
                    None
                }
            },
            _ => None,
        }
    }
}

/// Binding an owner handle is only meaningful while it points into the
/// object table.
pub open spec fn owner_ok(cam: CCamera, objs: Seq<CGameObject>) -> bool {
    match cam.player {
        CameraOwner::Object(i) => i < objs.len(),
        _ => true,
    }
}

/// The position the camera's owner currently supplies.
pub open spec fn owner_pos(w: CWorld) -> Vector3D {
    match w.Camera.player {
        CameraOwner::Default => v3_zero(),
        CameraOwner::Viewer => w.Viewer.pos,
        CameraOwner::Object(i) => w.objs@[i as int].physical_object.position,
    }
}

/// The eye point of the camera for the current owner.
pub open spec fn camera_pos(w: CWorld) -> Vector3D {
    v3_add(
        owner_pos(w),
        v3_scale(v3_scale(w.Camera.target, w.Camera.dist as int), w.Camera.shift.y as int),
    )
}

/// What the world asks its shell to do after handling an event.
#[derive(Clone, Copy, PartialEq, Eq, Structural, Debug)]
pub enum WorldAction {
    Nothing,
    SaveRequested,
    LoadRequested,
}

/// The viewer after a key transition was dispatched to it.
pub open spec fn keyed_viewer(
    v: CViewer,
    st: ElementState,
    key: VirtualKeyCode,
    trg: Vector3D,
    up: Vector3D,
) -> CViewer {
    CViewer {
        pos: v.pos,
        dir: dir_after_key(v.dir, st, key),
        speed: viewer_speed(dir_after_key(v.dir, st, key), trg, up),
    }
}

/// A steered object after a key transition was dispatched to it.
pub open spec fn keyed_obj(
    o: CGameObject,
    st: ElementState,
    key: VirtualKeyCode,
    trg: Vector3D,
    up: Vector3D,
) -> CGameObject {
    CGameObject {
        physical_object: CPhysicalObject {
            speed: object_speed(dir_after_key(o.dir, st, key), trg, up),
            ..o.physical_object
        },
        model_name: o.model_name,
        texture_id: o.texture_id,
        dir: dir_after_key(o.dir, st, key),
    }
}

/// The object list after a key transition reached the camera's owner.
pub open spec fn objs_after_key(
    objs: Seq<CGameObject>,
    player: CameraOwner,
    st: ElementState,
    key: VirtualKeyCode,
    trg: Vector3D,
    up: Vector3D,
) -> Seq<CGameObject> {
    match player {
        CameraOwner::Object(i) => objs.update(i as int, keyed_obj(objs[i as int], st, key, trg, up)),
        _ => objs,
    }
}

/// The viewer after a key transition reached the camera's owner.
pub open spec fn viewer_after_key(
    v: CViewer,
    player: CameraOwner,
    st: ElementState,
    key: VirtualKeyCode,
    trg: Vector3D,
    up: Vector3D,
) -> CViewer {
    match player {
        CameraOwner::Viewer => keyed_viewer(v, st, key, trg, up),
        _ => v,
    }
}

/// Where a spawned object lands: five units in front of the eye point on
/// the ground plane, at fixed height.
pub open spec fn spawn_pos(w: CWorld) -> Vector3D {
    let p = v3_sub(
        camera_pos(w),
        v3_scale(v3_normalize(Vector3D { x: w.Camera.target.x, y: 0, z: w.Camera.target.z }), 5000),
    );
    Vector3D { x: p.x, y: (-350) as i64, z: p.z }
}

/// What a spawned object looks like: a fresh unit cube bound to the second
/// texture, scaled down and placed in front of the camera.
pub open spec fn spawned_ok(o: CGameObject, w: CWorld) -> bool {
    &&& o.physical_object.position == spawn_pos(w)
    &&& o.physical_object.old_position == v3_zero()
    &&& o.physical_object.scale == (Vector3D { x: 300, y: 300, z: 300 })
    &&& o.physical_object.rotate == v3_zero()
    &&& o.physical_object.speed == v3_zero()
    &&& o.physical_object.power == v3_zero()
    &&& o.physical_object.coords@ == crate::models::cube_coords(
        Vector3D { x: 1000, y: 1000, z: 1000 },
    )
    &&& o.physical_object.weight == 1000
    &&& !o.physical_object.movable
    &&& o.model_name@ == seq![99u8]
    &&& o.texture_id == w.textures@[1].id
    &&& o.dir == v3_zero()
}

/// What a spawned light looks like: defaults, placed at the eye point and
/// tinted with the overlay's pending light color.
pub open spec fn spawned_light_ok(l: CLight, w: CWorld) -> bool {
    l == (CLight {
        pos: camera_pos(w),
        color: w.changedProp.lightColor,
        attenuation: crate::light::default_attenuation(),
        vector: Vector3D { x: 1000, y: 0, z: 0 },
        range: crate::trig::HALF_TURN,
        maxradius: 20000,
    })
}

impl CWorld {
    /// The eye point of the camera for the current owner.
    pub fn get_camera_pos(&self) -> (r: Vector3D)
        requires
            owner_ok(self.Camera, self.objs@),
        ensures
            r == camera_pos(*self),
    {
        let base = match self.Camera.player {
            CameraOwner::Default => Vector3D { x: 0, y: 0, z: 0 },
            CameraOwner::Viewer => self.Viewer.pos,
            CameraOwner::Object(i) => self.objs[i].physical_object.position,
        };
        self.Camera.GetPos(base)
    }

    /// Install pending overlay edits.
    pub fn set_prop(&mut self, new_prop: &ChangedProperties)
        ensures
            final(self).changedProp.backgroundLightColor == new_prop.backgroundLightColor,
            final(self).changedProp.lightColor == new_prop.lightColor,
            final(self).objs == old(self).objs,
            final(self).lights == old(self).lights,
            final(self).dirlights == old(self).dirlights,
            final(self).textures == old(self).textures,
            final(self).Viewer == old(self).Viewer,
            final(self).Camera == old(self).Camera,
    {
        self.changedProp.backgroundLightColor = new_prop.backgroundLightColor;
        self.changedProp.lightColor = new_prop.lightColor;
    }

    /// One frame of simulation: reorient the camera, move the viewer, then
    /// integrate every object and roll back each one that ends up
    /// overlapping another.
    #[verifier::rlimit(100)]
    pub fn update(&mut self, t: i64)
        requires
            obj_weights_ok(old(self).objs@),
        ensures
            final(self).objs@ == world_tick(old(self).objs@, t as int),
            final(self).Viewer == (CViewer {
                pos: v3_add(old(self).Viewer.pos, v3_scale(old(self).Viewer.speed, t as int)),
                ..old(self).Viewer
            }),
            final(self).Camera.target == crate::camera::orientation_of(old(self).Camera.angle).0,
            final(self).Camera.up == crate::camera::orientation_of(old(self).Camera.angle).1,
            final(self).Camera.angle == old(self).Camera.angle,
            final(self).Camera.player == old(self).Camera.player,
            final(self).Camera.dist == old(self).Camera.dist,
            final(self).Camera.shift == old(self).Camera.shift,
            final(self).Camera.mousePos == old(self).Camera.mousePos,
            final(self).Camera.PerspectiveMatrix == old(self).Camera.PerspectiveMatrix,
            final(self).lights == old(self).lights,
            final(self).dirlights == old(self).dirlights,
            final(self).textures == old(self).textures,
            final(self).changedProp == old(self).changedProp,
    {
        self.Camera.update();
        self.Viewer.update(t);

        let ghost cam_snap = self.Camera;
        let ghost viewer_snap = self.Viewer;
        let ghost lights_snap = self.lights;
        let ghost dirlights_snap = self.dirlights;
        let ghost textures_snap = self.textures;
        let ghost prop_snap = self.changedProp;

        let ghost orig = self.objs@;
        let mut i: usize = 0;
        while i < self.objs.len()
            invariant
                i <= self.objs@.len(),
                self.Camera == cam_snap,
                self.Viewer == viewer_snap,
                self.lights == lights_snap,
                self.dirlights == dirlights_snap,
                self.textures == textures_snap,
                self.changedProp == prop_snap,
                self.objs@.len() == orig.len(),
                obj_weights_ok(orig),
                forall|j: int| 0 <= j < i ==> self.objs@[j] == obj_updated(orig[j], t as int),
                forall|j: int| i <= j < orig.len() ==> self.objs@[j] == orig[j],
            decreases self.objs@.len() - i,
        {
            proof {
                assert(self.objs@[i as int] == orig[i as int]);
                assert(orig[i as int].physical_object.weight != 0);
            }
            self.objs[i].update(t);
            i += 1;
        }
        proof {
            assert(self.objs@ =~= integrated(orig, t as int));
        }

        let ghost start = self.objs@;
        let mut i: usize = 0;
        while i < self.objs.len()
            invariant
                i <= self.objs@.len(),
                self.Camera == cam_snap,
                self.Viewer == viewer_snap,
                self.lights == lights_snap,
                self.dirlights == dirlights_snap,
                self.textures == textures_snap,
                self.changedProp == prop_snap,
                self.objs@.len() == start.len(),
                resolved_from(start, 0) == resolved_from(self.objs@, i as nat),
            decreases self.objs@.len() - i,
        {
            let ghost cur = self.objs@;
            let mut hit = false;
            let mut j: usize = 0;
            while j < self.objs.len()
                invariant
                    j <= cur.len(),
                    i < cur.len(),
                    self.objs@ == cur,
                    hit ==> hits_any(cur, i as int),
                    !hit ==> forall|j2: int|
                        0 <= j2 < j && j2 != i ==> !aabb_overlap(
                            po_box(cur[i as int].physical_object),
                            po_box(#[trigger] cur[j2].physical_object),
                        ),
                decreases cur.len() - j,
            {
                if j != i && !hit {
                    if self.objs[i].intersect_with(&self.objs[j]) {
                        hit = true;
                    }
                }
                j += 1;
            }
            if hit {
                self.objs[i].rollback();
                proof {
                    assert(self.objs@ =~= cur.update(i as int, obj_rolled(cur[i as int])));
                }
            }
            proof {
                assert(resolved_from(cur, i as nat) == resolved_from(self.objs@, (i + 1) as nat));
            }
            i += 1;
        }
        proof {
            assert(resolved_from(self.objs@, self.objs@.len() as nat) == self.objs@);
        }
    }

    /// The whole scene as text, in the fixed section order.
    pub fn save(&self) -> (out: Vec<u8>)
        requires
            self.textures@.len() <= 0x7FFF_FFFF,
            self.objs@.len() <= 0x7FFF_FFFF,
            self.lights@.len() <= 0x7FFF_FFFF,
            self.dirlights@.len() <= 0x7FFF_FFFF,
        ensures
            out@ == scene_repr(*self),
    {
        let mut lines: Vec<Vec<u8>> = Vec::new();
        lines.push(self.Viewer.save());

        let mut counts: Vec<Vec<u8>> = Vec::new();
        counts.push(fmt_int_e(self.textures.len() as i64));
        counts.push(fmt_int_e(self.objs.len() as i64));
        counts.push(fmt_int_e(self.lights.len() as i64));
        counts.push(fmt_int_e(self.dirlights.len() as i64));
        proof {
            assert(counts.deep_view() =~~= counts_fields(
                self.textures@.len() as int,
                self.objs@.len() as int,
                self.lights@.len() as int,
                self.dirlights@.len() as int,
            ));
        }
        lines.push(join_by_e(&counts, 32));

        let ghost head = lines.deep_view();
        let mut i: usize = 0;
        while i < self.textures.len()
            invariant
                i <= self.textures@.len(),
                lines.deep_view() =~~= head + Seq::new(
                    i as nat,
                    |k: int| texture_repr(self.textures@[k].path@, self.textures@[k].id as int),
                ),
            decreases self.textures@.len() - i,
        {
            let ghost prev = lines.deep_view();
            lines.push(self.textures[i].save());
            proof {
                assert(lines.deep_view() =~~= prev.push(
                    texture_repr(self.textures@[i as int].path@, self.textures@[i as int].id as int),
                ));
                assert(lines.deep_view() =~~= head + Seq::new(
                    (i + 1) as nat,
                    |k: int| texture_repr(self.textures@[k].path@, self.textures@[k].id as int),
                ));
            }
            i += 1;
        }

        let ghost head2 = lines.deep_view();
        let mut i: usize = 0;
        while i < self.objs.len()
            invariant
                i <= self.objs@.len(),
                lines.deep_view() =~~= head2 + Seq::new(
                    i as nat,
                    |k: int| object_repr(self.objs@[k]),
                ),
            decreases self.objs@.len() - i,
        {
            let ghost prev = lines.deep_view();
            lines.push(self.objs[i].save());
            proof {
                assert(lines.deep_view() =~~= prev.push(object_repr(self.objs@[i as int])));
                assert(lines.deep_view() =~~= head2 + Seq::new(
                    (i + 1) as nat,
                    |k: int| object_repr(self.objs@[k]),
                ));
            }
            i += 1;
        }

        let ghost head3 = lines.deep_view();
        let mut i: usize = 0;
        while i < self.lights.len()
            invariant
                i <= self.lights@.len(),
                lines.deep_view() =~~= head3 + Seq::new(
                    i as nat,
                    |k: int| light_repr(self.lights@[k]),
                ),
            decreases self.lights@.len() - i,
        {
            let ghost prev = lines.deep_view();
            lines.push(self.lights[i].save());
            proof {
                assert(lines.deep_view() =~~= prev.push(light_repr(self.lights@[i as int])));
                assert(lines.deep_view() =~~= head3 + Seq::new(
                    (i + 1) as nat,
                    |k: int| light_repr(self.lights@[k]),
                ));
            }
            i += 1;
        }

        let ghost head4 = lines.deep_view();
        let mut i: usize = 0;
        while i < self.dirlights.len()
            invariant
                i <= self.dirlights@.len(),
                lines.deep_view() =~~= head4 + Seq::new(
                    i as nat,
                    |k: int| dirlight_repr(self.dirlights@[k]),
                ),
            decreases self.dirlights@.len() - i,
        {
            let ghost prev = lines.deep_view();
            lines.push(self.dirlights[i].save());
            proof {
                assert(lines.deep_view() =~~= prev.push(dirlight_repr(self.dirlights@[i as int])));
                assert(lines.deep_view() =~~= head4 + Seq::new(
                    (i + 1) as nat,
                    |k: int| dirlight_repr(self.dirlights@[k]),
                ));
            }
            i += 1;
        }

        proof {
            assert(lines.deep_view() =~~= scene_lines(*self));
        }
        join_by_e(&lines, 10)
    }

    /// Replace the scene from a save file.  The file is parsed into staging
    /// storage first: a malformed file installs nothing and leaves the world
    /// exactly as it was.
    #[verifier::rlimit(100)]
    pub fn load(&mut self, data: &Vec<u8>) -> (ok: bool)
        ensures
            match parse_scene(data@) {
                Some(parts) => {
                    &&& ok
                    &&& final(self).Viewer == (CViewer { pos: parts.0, ..old(self).Viewer })
                    &&& final(self).textures@.len() == parts.1.len()
                    &&& forall|i: int|
                        0 <= i < parts.1.len() ==> (#[trigger] final(self).textures@[i]).path@
                            == parts.1[i].0 && final(self).textures@[i].id as int == parts.1[i].1
                    &&& final(self).objs@.len() == parts.2.len()
                    &&& forall|i: int|
                        0 <= i < parts.2.len() ==> crate::game_object::loaded_obj_ok(
                            #[trigger] final(self).objs@[i],
                            parts.2[i],
                        )
                    &&& final(self).lights@ == parts.3
                    &&& final(self).dirlights@ == parts.4
                },
                None => !ok && *final(self) == *old(self),
            },
            final(self).Camera == old(self).Camera,
            final(self).changedProp == old(self).changedProp,
    {
        let lines = split_by_e(data, 10);
        let ghost slines = split_by(data@, 10);
        proof {
            assert forall|k: int| 0 <= k < lines@.len() implies #[trigger] lines@[k]@
                == slines[k] by {
                assert(slines[k] == lines@[k].deep_view());
                assert(lines@[k].deep_view() =~= lines@[k]@);
            }
        }
        if lines.len() < 2 {
            return false;
        }
        let mut vtmp = self.Viewer;
        if !vtmp.load(&lines[0]) {
            return false;
        }

        let cline = lines[1].clone();
        let cts = split_by_e(&cline, 32);
        let ghost scts = split_by(slines[1], 32);
        proof {
            assert(cline@ == slines[1]);
            assert forall|k: int| 0 <= k < cts@.len() implies #[trigger] cts@[k]@ == scts[k] by {
                assert(scts[k] == cts@[k].deep_view());
                assert(cts@[k].deep_view() =~= cts@[k]@);
            }
        }
        if cts.len() != 4 {
            return false;
        }
        let t = match parse_int_e(&cts[0]) {
            Some(v) => v,
            None => {
                proof {
                    assert(!(forall|k: int|
                        0 <= k < 4 ==> parse_int(#[trigger] scts[k]) is Some)) by {
                        assert(!(parse_int(scts[0]) is Some));
                    }
                }
                return false;
            },
        };
        let o = match parse_int_e(&cts[1]) {
            Some(v) => v,
            None => {
                proof {
                    assert(!(forall|k: int|
                        0 <= k < 4 ==> parse_int(#[trigger] scts[k]) is Some)) by {
                        assert(!(parse_int(scts[1]) is Some));
                    }
                }
                return false;
            },
        };
        let l = match parse_int_e(&cts[2]) {
            Some(v) => v,
            None => {
                proof {
                    assert(!(forall|k: int|
                        0 <= k < 4 ==> parse_int(#[trigger] scts[k]) is Some)) by {
                        assert(!(parse_int(scts[2]) is Some));
                    }
                }
                return false;
            },
        };
        let d = match parse_int_e(&cts[3]) {
            Some(v) => v,
            None => {
                proof {
                    assert(!(forall|k: int|
                        0 <= k < 4 ==> parse_int(#[trigger] scts[k]) is Some)) by {
                        assert(!(parse_int(scts[3]) is Some));
                    }
                }
                return false;
            },
        };
        if t < 0 || o < 0 || l < 0 || d < 0 {
            proof {
                assert(!(forall|k: int|
                    0 <= k < 4 ==> crate::light::opt_val(parse_int(#[trigger] scts[k])) >= 0))
                    by {
                    if t < 0 {
                        assert(crate::light::opt_val(parse_int(scts[0])) < 0);
                    } else if o < 0 {
                        assert(crate::light::opt_val(parse_int(scts[1])) < 0);
                    } else if l < 0 {
                        assert(crate::light::opt_val(parse_int(scts[2])) < 0);
                    } else {
                        assert(crate::light::opt_val(parse_int(scts[3])) < 0);
                    }
                }
            }
            return false;
        }
        let ghost ct: int = t as int;
        let ghost co: int = o as int;
        let ghost cl: int = l as int;
        let ghost cd: int = d as int;
        proof {
            assert(parse_counts(slines[1]) == Some((ct, co, cl, cd)));
        }
        if (lines.len() as i128) != 2i128 + (t as i128) + (o as i128) + (l as i128) + (d as i128) {
            return false;
        }
        let t_us = t as usize;
        let o_us = o as usize;
        let l_us = l as usize;
        let d_us = d as usize;

        let ghost vp = vtmp.pos;
        let ghost ids = ids_of(slines, ct);

        // textures
        let mut staged_tex: Vec<CTexture> = Vec::new();
        let mut i: usize = 0;
        while i < t_us
            invariant
                i <= t_us,
                slines == split_by(data@, 10),
                lines.deep_view() == slines,
                forall|k: int| 0 <= k < lines@.len() ==> #[trigger] lines@[k]@ == slines[k],
                lines@.len() == slines.len(),
                lines@.len() <= usize::MAX,
                slines.len() >= 2,
                parse_viewer(slines[0]) == Some(vp),
                parse_counts(slines[1]) == Some((ct, co, cl, cd)),
                t_us == ct && o_us == co && l_us == cl && d_us == cd,
                0 <= ct && 0 <= co && 0 <= cl && 0 <= cd,
                slines.len() == 2 + ct + co + cl + cd,
                staged_tex@.len() == i,
                forall|j: int|
                    0 <= j < i ==> parse_texture(#[trigger] slines[2 + j]) is Some,
                forall|j: int|
                    0 <= j < i ==> (#[trigger] staged_tex@[j]).path@ == tex_val(
                        parse_texture(slines[2 + j]),
                    ).0 && staged_tex@[j].id as int == tex_val(parse_texture(slines[2 + j])).1,
            decreases t_us - i,
        {
            match CTexture::load(&lines[2 + i]) {
                Some(tx) => staged_tex.push(tx),
                None => {
                    proof {
                        assert(!(forall|ii: int|
                            0 <= ii < ct ==> parse_texture(#[trigger] slines[2 + ii]) is Some))
                            by {
                            assert(!(parse_texture(slines[2 + i as int]) is Some));
                        }
                    }
                    return false;
                },
            }
            i += 1;
        }
        proof {
            assert(Seq::new(staged_tex@.len(), |j: int| staged_tex@[j].id) =~= ids);
        }

        // objects
        let mut staged_obj: Vec<CGameObject> = Vec::new();
        let mut i: usize = 0;
        while i < o_us
            invariant
                i <= o_us,
                slines == split_by(data@, 10),
                lines.deep_view() == slines,
                forall|k: int| 0 <= k < lines@.len() ==> #[trigger] lines@[k]@ == slines[k],
                lines@.len() == slines.len(),
                lines@.len() <= usize::MAX,
                slines.len() >= 2,
                parse_viewer(slines[0]) == Some(vp),
                parse_counts(slines[1]) == Some((ct, co, cl, cd)),
                t_us == ct && o_us == co && l_us == cl && d_us == cd,
                0 <= ct && 0 <= co && 0 <= cl && 0 <= cd,
                slines.len() == 2 + ct + co + cl + cd,
                staged_tex@.len() == ct,
                ids == ids_of(slines, ct),
                Seq::new(staged_tex@.len(), |j: int| staged_tex@[j].id) == ids,
                forall|j: int|
                    0 <= j < ct ==> parse_texture(#[trigger] slines[2 + j]) is Some,
                forall|j: int|
                    0 <= j < ct ==> (#[trigger] staged_tex@[j]).path@ == tex_val(
                        parse_texture(slines[2 + j]),
                    ).0 && staged_tex@[j].id as int == tex_val(parse_texture(slines[2 + j])).1,
                staged_obj@.len() == i,
                forall|j: int|
                    0 <= j < i ==> parse_object(#[trigger] slines[2 + ct + j], ids) is Some,
                forall|j: int|
                    0 <= j < i ==> crate::game_object::loaded_obj_ok(
                        #[trigger] staged_obj@[j],
                        obj_val(parse_object(slines[2 + ct + j], ids)),
                    ),
            decreases o_us - i,
        {
            match CGameObject::load(&lines[2 + t_us + i], &staged_tex) {
                Some(ob) => staged_obj.push(ob),
                None => {
                    proof {
                        assert(!(forall|ii: int|
                            0 <= ii < co ==> parse_object(
                                #[trigger] slines[2 + ct + ii],
                                ids,
                            ) is Some)) by {
                            assert(!(parse_object(slines[2 + ct + i as int], ids) is Some));
                        }
                    }
                    return false;
                },
            }
            i += 1;
        }

        // point lights
        let mut staged_l: Vec<CLight> = Vec::new();
        let mut i: usize = 0;
        while i < l_us
            invariant
                i <= l_us,
                slines == split_by(data@, 10),
                lines.deep_view() == slines,
                forall|k: int| 0 <= k < lines@.len() ==> #[trigger] lines@[k]@ == slines[k],
                lines@.len() == slines.len(),
                lines@.len() <= usize::MAX,
                slines.len() >= 2,
                parse_viewer(slines[0]) == Some(vp),
                parse_counts(slines[1]) == Some((ct, co, cl, cd)),
                t_us == ct && o_us == co && l_us == cl && d_us == cd,
                0 <= ct && 0 <= co && 0 <= cl && 0 <= cd,
                slines.len() == 2 + ct + co + cl + cd,
                staged_l@.len() == i,
                forall|j: int|
                    0 <= j < i ==> parse_light(#[trigger] slines[2 + ct + co + j]) is Some,
                forall|j: int|
                    0 <= j < i ==> #[trigger] staged_l@[j] == light_val(
                        parse_light(slines[2 + ct + co + j]),
                    ),
            decreases l_us - i,
        {
            match CLight::load(&lines[2 + t_us + o_us + i]) {
                Some(lt) => staged_l.push(lt),
                None => {
                    proof {
                        assert(!(forall|ii: int|
                            0 <= ii < cl ==> parse_light(
                                #[trigger] slines[2 + ct + co + ii],
                            ) is Some)) by {
                            assert(!(parse_light(slines[2 + ct + co + i as int]) is Some));
                        }
                    }
                    return false;
                },
            }
            i += 1;
        }

        // directional lights
        let mut staged_d: Vec<CDirectionLight> = Vec::new();
        let mut i: usize = 0;
        while i < d_us
            invariant
                i <= d_us,
                slines == split_by(data@, 10),
                lines.deep_view() == slines,
                forall|k: int| 0 <= k < lines@.len() ==> #[trigger] lines@[k]@ == slines[k],
                lines@.len() == slines.len(),
                lines@.len() <= usize::MAX,
                slines.len() >= 2,
                parse_viewer(slines[0]) == Some(vp),
                parse_counts(slines[1]) == Some((ct, co, cl, cd)),
                t_us == ct && o_us == co && l_us == cl && d_us == cd,
                0 <= ct && 0 <= co && 0 <= cl && 0 <= cd,
                slines.len() == 2 + ct + co + cl + cd,
                staged_d@.len() == i,
                forall|j: int|
                    0 <= j < i ==> parse_dirlight(
                        #[trigger] slines[2 + ct + co + cl + j],
                    ) is Some,
                forall|j: int|
                    0 <= j < i ==> #[trigger] staged_d@[j] == dirlight_val(
                        parse_dirlight(slines[2 + ct + co + cl + j]),
                    ),
            decreases d_us - i,
        {
            match CDirectionLight::load(&lines[2 + t_us + o_us + l_us + i]) {
                Some(dl) => staged_d.push(dl),
                None => {
                    proof {
                        assert(!(forall|ii: int|
                            0 <= ii < cd ==> parse_dirlight(
                                #[trigger] slines[2 + ct + co + cl + ii],
                            ) is Some)) by {
                            assert(!(parse_dirlight(slines[2 + ct + co + cl + i as int]) is Some));
                        }
                    }
                    return false;
                },
            }
            i += 1;
        }

        proof {
            let parts = parse_scene(data@);
            assert(parts is Some);
            assert(parts.unwrap().0 == vp);
            assert(parts.unwrap().1 =~= Seq::new(
                ct as nat,
                |j: int| tex_val(parse_texture(slines[2 + j])),
            ));
            assert(parts.unwrap().2 =~= Seq::new(
                co as nat,
                |j: int| obj_val(parse_object(slines[2 + ct + j], ids)),
            ));
            assert(staged_l@ =~= Seq::new(
                cl as nat,
                |j: int| light_val(parse_light(slines[2 + ct + co + j])),
            ));
            assert(staged_d@ =~= Seq::new(
                cd as nat,
                |j: int| dirlight_val(parse_dirlight(slines[2 + ct + co + cl + j])),
            ));
        }
        self.Viewer = vtmp;
        self.textures = staged_tex;
        self.objs = staged_obj;
        self.lights = staged_l;
        self.dirlights = staged_d;
        true
    }

    /// The starting scene: two textures, two cubes and a wide flat floor,
    /// two point lights, one directional light, and the camera bound to the
    /// free viewer.
    pub fn new(win_width: i64, win_height: i64) -> (r: CWorld)
        requires
            win_height > 0,
            crate::fixed::fx_mul(
                crate::fixed::fx_div(win_width as int, win_height as int),
                crate::camera::TAN_HALF_FOV as int,
            ) != 0,
        ensures
            r.textures@.len() == 2,
            r.textures@[0].id == 1 && r.textures@[1].id == 2,
            r.objs@.len() == 3,
            r.objs@[0].physical_object.position == (Vector3D { x: (-4000) as i64, y: 1000, z: 0 }),
            r.objs@[0].physical_object.scale == (Vector3D { x: 3000, y: 3000, z: 3000 }),
            r.objs@[1].physical_object.position == (Vector3D { x: (-2000) as i64, y: (-350) as i64, z: (-5000) as i64 }),
            r.objs@[1].physical_object.scale == (Vector3D { x: 300, y: 300, z: 300 }),
            r.objs@[2].physical_object.position == (Vector3D { x: 0, y: (-1000) as i64, z: 0 }),
            r.objs@[2].physical_object.scale == (Vector3D { x: 500000, y: 1000, z: 500000 }),
            forall|i: int|
                0 <= i < 3 ==> (#[trigger] r.objs@[i]).physical_object.coords@
                    == crate::models::cube_coords(Vector3D { x: 1000, y: 1000, z: 1000 })
                    && r.objs@[i].physical_object.weight == 1000
                    && !r.objs@[i].physical_object.movable
                    && r.objs@[i].physical_object.speed == v3_zero(),
            r.objs@[0].texture_id == 2 && r.objs@[1].texture_id == 2 && r.objs@[2].texture_id == 1,
            r.lights@.len() == 2,
            r.lights@[0].range == 524,
            r.lights@[1].range == crate::trig::HALF_TURN,
            r.dirlights@.len() == 1,
            r.Viewer.pos == (Vector3D { x: 0, y: (-300) as i64, z: 3000 }),
            r.Camera.player is Viewer,
            r.changedProp.backgroundLightColor == (Vector3D { x: 1, y: 1, z: 1 }),
            r.changedProp.lightColor == (Vector3D { x: 1000, y: 0, z: 0 }),
            scene_wf(r),
            obj_weights_ok(r.objs@),
            owner_ok(r.Camera, r.objs@),
    {
        let mut camera = CCamera::new(
            Vector3D { x: 0, y: 0, z: 1000 },
            Vector3D { x: 0, y: 1000, z: 0 },
            win_width,
            win_height,
        );

        let wall: Vec<u8> = vec![
            105u8, 109, 97, 103, 101, 115, 47, 87, 97, 108, 108, 46, 106, 112, 103,
        ];
        let block: Vec<u8> = vec![
            105u8, 109, 97, 103, 101, 115, 47, 66, 108, 111, 99, 107, 46, 106, 112, 103,
        ];
        let texture = CTexture::new(1, wall);
        let block_tex = CTexture::new(2, block);

        let mut light = CLight::new();
        light.set_range(524);
        let light2 = CLight::new();
        let dirlight = CDirectionLight::new();

        let unit = Vector3D { x: 1000, y: 1000, z: 1000 };
        let mut cube1 = CGameObject::new(&CModel::cube(unit), 2);
        cube1.set_scale(Vector3D { x: 3000, y: 3000, z: 3000 });
        cube1.set_pos(Vector3D { x: -4000, y: 1000, z: 0 });

        let mut cube2 = CGameObject::new(&CModel::cube(unit), 2);
        cube2.set_scale(Vector3D { x: 300, y: 300, z: 300 });
        cube2.set_pos(Vector3D { x: -2000, y: -350, z: -5000 });

        let viewer = CViewer::new(Vector3D { x: 0, y: -300, z: 3000 });
        camera.SetOwner(CameraOwner::Viewer, viewer.GetSize());

        let mut floor = CGameObject::new(&CModel::cube(unit), 1);
        floor.set_pos(Vector3D { x: 0, y: -1000, z: 0 });
        floor.set_scale(Vector3D { x: 500000, y: 1000, z: 500000 });

        let mut objs: Vec<CGameObject> = Vec::new();
        objs.push(cube1);
        objs.push(cube2);
        objs.push(floor);

        let mut lights: Vec<CLight> = Vec::new();
        lights.push(light);
        lights.push(light2);

        let mut dirlights: Vec<CDirectionLight> = Vec::new();
        dirlights.push(dirlight);

        let mut textures: Vec<CTexture> = Vec::new();
        textures.push(texture);
        textures.push(block_tex);

        let w = CWorld {
            Camera: camera,
            Viewer: viewer,
            objs,
            lights,
            dirlights,
            changedProp: ChangedProperties::new(),
            textures,
        };
        proof {
            assert forall|i: int| 0 <= i < w.objs@.len() implies exists|k: int|
                0 <= k < w.textures@.len() && (#[trigger] w.textures@[k]).id == (
                #[trigger] w.objs@[i]).texture_id by {
                if w.objs@[i].texture_id == 2 {
                    assert(w.textures@[1].id == 2);
                } else {
                    assert(w.textures@[0].id == 1);
                }
            }
            assert forall|i: int| 0 <= i < w.textures@.len() implies crate::tokens::sep_free(
                (#[trigger] w.textures@[i]).path@,
                32,
            ) && crate::tokens::sep_free(w.textures@[i].path@, 10) by {
                assert forall|k: int|
                    0 <= k < w.textures@[i].path@.len() implies w.textures@[i].path@[k] != 32
                        && w.textures@[i].path@[k] != 10 by {
                    if i == 0 {
                        assert(w.textures@[0].path@[k] != 32 && w.textures@[0].path@[k] != 10);
                    } else {
                        assert(w.textures@[1].path@[k] != 32 && w.textures@[1].path@[k] != 10);
                    }
                }
            }
            assert forall|i: int| 0 <= i < w.objs@.len() implies crate::tokens::sep_free(
                (#[trigger] w.objs@[i]).model_name@,
                32,
            ) && crate::tokens::sep_free(w.objs@[i].model_name@, 10) by {
                assert(w.objs@[i].model_name@ == seq![99u8]);
                assert(forall|k: int|
                    0 <= k < w.objs@[i].model_name@.len() ==> w.objs@[i].model_name@[k] == 99);
            }
        }
        w
    }

    /// Spawn a fresh cube in front of the camera, bound to the second
    /// texture.
    pub fn create_new_obj(&mut self)
        requires
            owner_ok(old(self).Camera, old(self).objs@),
            old(self).textures@.len() >= 2,
        ensures
            final(self).objs@.len() == old(self).objs@.len() + 1,
            final(self).objs@.subrange(0, old(self).objs@.len() as int) == old(self).objs@,
            spawned_ok(final(self).objs@.last(), *old(self)),
            final(self).Camera == old(self).Camera,
            final(self).Viewer == old(self).Viewer,
            final(self).lights == old(self).lights,
            final(self).dirlights == old(self).dirlights,
            final(self).textures == old(self).textures,
            final(self).changedProp == old(self).changedProp,
    {
        let ghost prev = self.objs@;
        let unit = Vector3D { x: 1000, y: 1000, z: 1000 };
        let tex_id = self.textures[1].id;
        let mut obj = CGameObject::new(&CModel::cube(unit), tex_id);

        let eye = self.get_camera_pos();
        let ahead = self.Camera.target.projectionXOZ().scale(5000);
        let mut new_pos = eye.sub(&ahead);
        new_pos.y = -350;

        obj.set_rotate(Vector3D { x: 0, y: 0, z: 0 });
        obj.set_scale(Vector3D { x: 300, y: 300, z: 300 });
        obj.set_pos(new_pos);
        self.objs.push(obj);
        proof {
            assert(final(self).objs@.subrange(0, prev.len() as int) =~= prev);
        }
    }

    /// Spawn a fresh point light at the eye point, tinted with the pending
    /// overlay color.
    pub fn create_new_lightsource(&mut self)
        requires
            owner_ok(old(self).Camera, old(self).objs@),
        ensures
            final(self).lights@.len() == old(self).lights@.len() + 1,
            final(self).lights@.subrange(0, old(self).lights@.len() as int) == old(self).lights@,
            spawned_light_ok(final(self).lights@.last(), *old(self)),
            final(self).Camera == old(self).Camera,
            final(self).Viewer == old(self).Viewer,
            final(self).objs == old(self).objs,
            final(self).dirlights == old(self).dirlights,
            final(self).textures == old(self).textures,
            final(self).changedProp == old(self).changedProp,
    {
        let ghost prev = self.lights@;
        let mut light = CLight::new();
        let eye = self.get_camera_pos();
        light.set_pos(eye);
        light.set_color(Vector3D {
            x: self.changedProp.lightColor.x,
            y: self.changedProp.lightColor.y,
            z: self.changedProp.lightColor.z,
        });
        self.lights.push(light);
        proof {
            assert(final(self).lights@.subrange(0, prev.len() as int) =~= prev);
        }
    }

    /// Hand a key transition to whichever entity the camera tracks.
    fn dispatch_key(&mut self, state: ElementState, key: VirtualKeyCode)
        requires
            owner_ok(old(self).Camera, old(self).objs@),
        ensures
            final(self).Viewer == viewer_after_key(
                old(self).Viewer,
                old(self).Camera.player,
                state,
                key,
                old(self).Camera.target,
                old(self).Camera.up,
            ),
            final(self).objs@ == objs_after_key(
                old(self).objs@,
                old(self).Camera.player,
                state,
                key,
                old(self).Camera.target,
                old(self).Camera.up,
            ),
            final(self).Camera == old(self).Camera,
            final(self).lights == old(self).lights,
            final(self).dirlights == old(self).dirlights,
            final(self).textures == old(self).textures,
            final(self).changedProp == old(self).changedProp,
    {
        let trg = self.Camera.target;
        let up = self.Camera.up;
        match self.Camera.player {
            CameraOwner::Default => {},
            CameraOwner::Viewer => {
                self.Viewer.KeyboardEvent(state, key, trg, up);
            },
            CameraOwner::Object(i) => {
                self.objs[i].KeyboardEvent(state, key, trg, up);
                proof {
                    assert(self.objs@ =~= objs_after_key(
                        old(self).objs@,
                        old(self).Camera.player,
                        state,
                        key,
                        trg,
                        up,
                    ));
                }
            },
        }
    }

    /// Consume one input event: key transitions go to the camera's subject,
    /// pointer motion steers the camera, and the bound actions spawn
    /// entities, rebind the camera, or request a save or load from the
    /// shell.
    #[allow(non_snake_case)]
    #[verifier::rlimit(100)]
    pub fn checkEvents(&mut self, event: &Event) -> (action: WorldAction)
        requires
            owner_ok(old(self).Camera, old(self).objs@),
            old(self).textures@.len() >= 2,
            old(self).objs@.len() >= 2,
        ensures
            match *event {
                Event::KeyboardInput(st, key) => {
                    let v1 = viewer_after_key(
                        old(self).Viewer,
                        old(self).Camera.player,
                        st,
                        key,
                        old(self).Camera.target,
                        old(self).Camera.up,
                    );
                    let objs1 = objs_after_key(
                        old(self).objs@,
                        old(self).Camera.player,
                        st,
                        key,
                        old(self).Camera.target,
                        old(self).Camera.up,
                    );
                    &&& final(self).Viewer == v1
                    &&& (match (st, key) {
                        (ElementState::Pressed, VirtualKeyCode::C) => {
                            &&& final(self).objs@.len() == objs1.len() + 1
                            &&& final(self).objs@.subrange(0, objs1.len() as int) == objs1
                            &&& final(self).Camera == old(self).Camera
                            &&& action is Nothing
                        },
                        (ElementState::Pressed, VirtualKeyCode::M) => {
                            &&& final(self).objs@ == objs1
                            &&& final(self).Camera.player == CameraOwner::Object(1)
                            &&& final(self).Camera.shift == v3_scale(
                                objs1[1].physical_object.size,
                                500,
                            )
                            &&& action is Nothing
                        },
                        (ElementState::Pressed, VirtualKeyCode::V) => {
                            &&& final(self).objs@ == objs1
                            &&& final(self).Camera.player == CameraOwner::Viewer
                            &&& action is Nothing
                        },
                        (ElementState::Pressed, VirtualKeyCode::F5) => {
                            &&& final(self).objs@ == objs1
                            &&& final(self).Camera == old(self).Camera
                            &&& action is SaveRequested
                        },
                        (ElementState::Pressed, VirtualKeyCode::F6) => {
                            &&& final(self).objs@ == objs1
                            &&& final(self).Camera == old(self).Camera
                            &&& action is LoadRequested
                        },
                        _ => {
                            &&& final(self).objs@ == objs1
                            &&& final(self).Camera == old(self).Camera
                            &&& action is Nothing
                        },
                    })
                    &&& final(self).lights == old(self).lights
                    &&& final(self).dirlights == old(self).dirlights
                    &&& final(self).textures == old(self).textures
                },
                Event::MouseMoved(x, y) => {
                    &&& final(self).Camera.angle == crate::camera::angle_after_move(
                        old(self).Camera.angle,
                        old(self).Camera.mousePos,
                        x as int,
                        y as int,
                    )
                    &&& final(self).objs == old(self).objs
                    &&& final(self).Viewer == old(self).Viewer
                    &&& final(self).lights == old(self).lights
                    &&& action is Nothing
                },
                Event::MouseWheel(y) => {
                    &&& final(self).Camera.dist as int == crate::fixed::fx_add(
                        old(self).Camera.dist as int,
                        crate::fixed::fx_div(y as int, 10000),
                    )
                    &&& final(self).objs == old(self).objs
                    &&& final(self).Viewer == old(self).Viewer
                    &&& action is Nothing
                },
                Event::MouseInput(st, button) => {
                    &&& (match (st, button) {
                        (ElementState::Pressed, MouseButton::Left) => {
                            &&& final(self).objs@.len() == old(self).objs@.len() + 1
                            &&& final(self).objs@.subrange(0, old(self).objs@.len() as int) == old(
                                self,
                            ).objs@
                            &&& spawned_ok(final(self).objs@.last(), *old(self))
                            &&& final(self).lights == old(self).lights
                        },
                        (ElementState::Pressed, MouseButton::Right) => {
                            &&& final(self).objs == old(self).objs
                            &&& final(self).lights@.len() == old(self).lights@.len() + 1
                            &&& final(self).lights@.subrange(0, old(self).lights@.len() as int)
                                == old(self).lights@
                            &&& spawned_light_ok(final(self).lights@.last(), *old(self))
                        },
                        _ => {
                            &&& final(self).objs == old(self).objs
                            &&& final(self).lights == old(self).lights
                        },
                    })
                    &&& final(self).Viewer == old(self).Viewer
                    &&& final(self).Camera == old(self).Camera
                    &&& action is Nothing
                },
                Event::Closed => {
                    &&& final(self).objs == old(self).objs
                    &&& final(self).Viewer == old(self).Viewer
                    &&& final(self).Camera == old(self).Camera
                    &&& final(self).lights == old(self).lights
                    &&& action is Nothing
                },
            },
            final(self).dirlights == old(self).dirlights,
            final(self).textures == old(self).textures,
            final(self).changedProp == old(self).changedProp,
    {
        match *event {
            Event::KeyboardInput(st, key) => {
                self.dispatch_key(st, key);
                match (st, key) {
                    (ElementState::Pressed, VirtualKeyCode::C) => {
                        self.create_new_obj();
                        WorldAction::Nothing
                    },
                    (ElementState::Pressed, VirtualKeyCode::M) => {
                        let size = self.objs[1].GetSize();
                        self.Camera.SetOwner(CameraOwner::Object(1), size);
                        WorldAction::Nothing
                    },
                    (ElementState::Pressed, VirtualKeyCode::V) => {
                        let size = self.Viewer.GetSize();
                        self.Camera.SetOwner(CameraOwner::Viewer, size);
                        WorldAction::Nothing
                    },
                    (ElementState::Pressed, VirtualKeyCode::F5) => WorldAction::SaveRequested,
                    (ElementState::Pressed, VirtualKeyCode::F6) => WorldAction::LoadRequested,
                    _ => WorldAction::Nothing,
                }
            },
            Event::MouseMoved(_x, _y) => {
                self.Camera.onMouseMove(event);
                WorldAction::Nothing
            },
            Event::MouseWheel(_y) => {
                self.Camera.onMouseMove(event);
                WorldAction::Nothing
            },
            Event::MouseInput(st, button) => {
                match (st, button) {
                    (ElementState::Pressed, MouseButton::Left) => {
                        self.create_new_obj();
                    },
                    (ElementState::Pressed, MouseButton::Right) => {
                        self.create_new_lightsource();
                    },
                    _ => {},
                }
                WorldAction::Nothing
            },
            Event::Closed => WorldAction::Nothing,
        }
    }
}

/// Rolling objects back never changes their masses, so one tick's result
/// satisfies what the next tick requires.
pub proof fn lemma_resolve_preserves_weights(objs: Seq<CGameObject>, i: nat)
    requires
        obj_weights_ok(objs),
    ensures
        obj_weights_ok(resolved_from(objs, i)),
        resolved_from(objs, i).len() == objs.len(),
    decreases objs.len() - i,
{
    if i >= objs.len() {
    } else {
        let objs2 = if hits_any(objs, i as int) {
            objs.update(i as int, obj_rolled(objs[i as int]))
        } else {
            objs
        };
        assert(obj_weights_ok(objs2)) by {
            assert forall|k: int|
                0 <= k < objs2.len() implies #[trigger] objs2[k].physical_object.weight != 0 by {
                if k != i {
                    assert(objs2[k] == objs[k]);
                }
            }
        }
        lemma_resolve_preserves_weights(objs2, i + 1);
    }
}

/// A whole tick keeps every object's mass, so `update` may be called tick
/// after tick.
pub proof fn lemma_tick_preserves_weights(objs: Seq<CGameObject>, t: int)
    requires
        obj_weights_ok(objs),
    ensures
        obj_weights_ok(world_tick(objs, t)),
        world_tick(objs, t).len() == objs.len(),
{
    let stepped = integrated(objs, t);
    assert(obj_weights_ok(stepped)) by {
        assert forall|k: int|
            0 <= k < stepped.len() implies #[trigger] stepped[k].physical_object.weight != 0 by {
            assert(stepped[k] == obj_updated(objs[k], t));
        }
    }
    lemma_resolve_preserves_weights(stepped, 0);
}

/// A body that ends a tick overlapping a resting obstacle is rolled back to
/// where that tick started, whatever the states and the elapsed time were:
/// it cannot interpenetrate across a frame boundary, and its speed is kept.
pub proof fn lemma_mover_rolls_back(objs: Seq<CGameObject>, t: int)
    requires
        objs.len() == 2,
        objs[0].physical_object.speed == v3_zero(),
        objs[0].physical_object.power == v3_zero(),
        aabb_overlap(
            po_box(updated(objs[0].physical_object, t)),
            po_box(updated(objs[1].physical_object, t)),
        ),
    ensures
        world_tick(objs, t)[1].physical_object.position == objs[1].physical_object.position,
        world_tick(objs, t)[1].physical_object.speed == updated(
            objs[1].physical_object,
            t,
        ).speed,
        world_tick(objs, t)[0].physical_object.position == objs[0].physical_object.position,
{
    let stepped = integrated(objs, t);
    let a = stepped[0];
    let b = stepped[1];
    assert(a == obj_updated(objs[0], t));
    assert(b == obj_updated(objs[1], t));

    // a resting obstacle does not move over the tick, so rolling it back
    // leaves it exactly as it is
    crate::fixed::lemma_fx_mul_zero(t);
    crate::fixed::lemma_fx_mul_zero(crate::fixed::fx_half(crate::fixed::fx_mul(t, t)));
    crate::fixed::lemma_fx_mul_zero(crate::fixed::fx_div(1000, objs[0].physical_object.weight as int));
    assert(accel_of(objs[0].physical_object) == v3_zero());
    assert(new_position(objs[0].physical_object, t) == objs[0].physical_object.position);
    assert(obj_rolled(a) == a);

    // the obstacle is scanned first and rolled back in place
    assert(hits_any(stepped, 0)) by {
        assert(aabb_overlap(
            po_box(stepped[0].physical_object),
            po_box(stepped[1].physical_object),
        ));
    }
    let s1 = stepped.update(0, obj_rolled(a));
    assert(s1 =~= stepped);
    assert(resolved_from(stepped, 0) == resolved_from(s1, 1));

    // then the mover still overlaps it and is rolled back
    assert(hits_any(s1, 1)) by {
        crate::geometry::lemma_aabb_overlap_symmetric(
            po_box(a.physical_object),
            po_box(b.physical_object),
        );
        assert(aabb_overlap(
            po_box(s1[1].physical_object),
            po_box(s1[0].physical_object),
        ));
    }
    let s2 = s1.update(1, obj_rolled(b));
    assert(resolved_from(s1, 1) == resolved_from(s2, 2));
    assert(resolved_from(s2, 2) == s2);

    assert(world_tick(objs, t) == s2);
    assert(s2[1] == obj_rolled(b));
    assert(s2[0] == a);
}

/// Printing a counts line and parsing it back yields the counts.
pub proof fn lemma_counts_round_trip(t: int, o: int, l: int, d: int)
    requires
        0 <= t <= i64::MAX,
        0 <= o <= i64::MAX,
        0 <= l <= i64::MAX,
        0 <= d <= i64::MAX,
    ensures
        parse_counts(counts_repr(t, o, l, d)) == Some((t, o, l, d)),
{
    let fs = counts_fields(t, o, l, d);
    assert forall|i: int| 0 <= i < fs.len() implies crate::tokens::sep_free(#[trigger] fs[i], 32) by {
        crate::codec::lemma_fmt_int_plain(t);
        crate::codec::lemma_fmt_int_plain(o);
        crate::codec::lemma_fmt_int_plain(l);
        crate::codec::lemma_fmt_int_plain(d);
    }
    crate::tokens::lemma_split_join(fs, 32);
    crate::codec::lemma_parse_fmt_int(t);
    crate::codec::lemma_parse_fmt_int(o);
    crate::codec::lemma_parse_fmt_int(l);
    crate::codec::lemma_parse_fmt_int(d);
}

/// A scene that every save reachable in play satisfies: moderate sizes,
/// separator-free names and paths, every object bound to a texture that is
/// really in the table, and lights carrying the unserialized defaults.
pub open spec fn scene_wf(w: CWorld) -> bool {
    &&& w.textures@.len() <= 0x7FFF_FFFF
    &&& w.objs@.len() <= 0x7FFF_FFFF
    &&& w.lights@.len() <= 0x7FFF_FFFF
    &&& w.dirlights@.len() <= 0x7FFF_FFFF
    &&& forall|i: int|
        0 <= i < w.textures@.len() ==> crate::tokens::sep_free(
            (#[trigger] w.textures@[i]).path@,
            32,
        ) && crate::tokens::sep_free(w.textures@[i].path@, 10)
    &&& forall|i: int|
        0 <= i < w.objs@.len() ==> crate::tokens::sep_free(
            (#[trigger] w.objs@[i]).model_name@,
            32,
        ) && crate::tokens::sep_free(w.objs@[i].model_name@, 10)
    &&& forall|i: int|
        0 <= i < w.objs@.len() ==> exists|k: int|
            0 <= k < w.textures@.len() && (#[trigger] w.textures@[k]).id == (
            #[trigger] w.objs@[i]).texture_id
    &&& forall|i: int|
        0 <= i < w.lights@.len() ==> (#[trigger] w.lights@[i]).attenuation
            == crate::light::default_attenuation() && w.lights@[i].maxradius == 20000
}

/// Saving a well-formed scene and loading the text back reproduces every
/// persisted field of every entity, and keeps each object bound to the same
/// texture identifier.
#[verifier::rlimit(100)]
pub proof fn lemma_scene_round_trip(w: CWorld)
    requires
        scene_wf(w),
    ensures
        parse_scene(scene_repr(w)) == Some(
            (
                w.Viewer.pos,
                Seq::new(w.textures@.len(), |i: int| (w.textures@[i].path@, w.textures@[i].id as int)),
                Seq::new(
                    w.objs@.len(),
                    |i: int|
                        (
                            w.objs@[i].texture_id as int,
                            w.objs@[i].physical_object.position,
                            w.objs@[i].physical_object.scale,
                            w.objs@[i].physical_object.speed,
                        ),
                ),
                w.lights@,
                w.dirlights@,
            ),
        ),
{
    let lines = scene_lines(w);
    let t = w.textures@.len() as int;
    let o = w.objs@.len() as int;
    let l = w.lights@.len() as int;
    let d = w.dirlights@.len() as int;
    let ghost ids = Seq::new(w.textures@.len(), |k: int| w.textures@[k].id);

    // every line is newline-free
    assert forall|i: int| 0 <= i < lines.len() implies crate::tokens::sep_free(
        #[trigger] lines[i],
        10,
    ) by {
        lemma_line_free(w, i);
    }
    crate::tokens::lemma_split_join(lines, 10);

    // the header lines parse back
    crate::viewer::lemma_viewer_round_trip(w.Viewer.pos);
    lemma_counts_round_trip(t, o, l, d);
    assert(lines[0] == viewer_repr(w.Viewer.pos));
    assert(lines[1] == counts_repr(t, o, l, d));

    // the texture table parses back, so the identifier list is restored
    assert forall|i: int| 0 <= i < t implies parse_texture(#[trigger] lines[2 + i]) == Some(
        (w.textures@[i].path@, w.textures@[i].id as int),
    ) by {
        assert(lines[2 + i] == texture_repr(w.textures@[i].path@, w.textures@[i].id as int));
        crate::texture::lemma_texture_round_trip(w.textures@[i].path@, w.textures@[i].id as int);
    }
    assert(ids_of(lines, t) =~= ids);

    // each object line parses back and keeps its binding
    assert forall|i: int| 0 <= i < o implies parse_object(
        #[trigger] lines[2 + t + i],
        ids_of(lines, t),
    ) == Some(
        (
            w.objs@[i].texture_id as int,
            w.objs@[i].physical_object.position,
            w.objs@[i].physical_object.scale,
            w.objs@[i].physical_object.speed,
        ),
    ) by {
        assert(lines[2 + t + i] == object_repr(w.objs@[i]));
        assert(exists|k: int| 0 <= k < ids.len() && ids[k] == w.objs@[i].texture_id) by {
            let k0 = choose|k: int|
                0 <= k < w.textures@.len() && w.textures@[k].id == w.objs@[i].texture_id;
            assert(ids[k0] == w.textures@[k0].id);
        }
        crate::game_object::lemma_object_round_trip(w.objs@[i], ids);
    }

    // both light sections parse back
    assert forall|i: int| 0 <= i < l implies parse_light(#[trigger] lines[2 + t + o + i]) == Some(
        w.lights@[i],
    ) by {
        assert(lines[2 + t + o + i] == light_repr(w.lights@[i]));
        crate::light::lemma_light_round_trip(w.lights@[i]);
    }
    assert forall|i: int| 0 <= i < d implies parse_dirlight(
        #[trigger] lines[2 + t + o + l + i],
    ) == Some(w.dirlights@[i]) by {
        assert(lines[2 + t + o + l + i] == dirlight_repr(w.dirlights@[i]));
        crate::light::lemma_dirlight_round_trip(w.dirlights@[i]);
    }

    let parts = parse_scene(scene_repr(w));
    assert(parts is Some);
    assert(parts.unwrap().1 =~= Seq::new(
        w.textures@.len(),
        |i: int| (w.textures@[i].path@, w.textures@[i].id as int),
    ));
    assert(parts.unwrap().2 =~= Seq::new(
        w.objs@.len(),
        |i: int|
            (
                w.objs@[i].texture_id as int,
                w.objs@[i].physical_object.position,
                w.objs@[i].physical_object.scale,
                w.objs@[i].physical_object.speed,
            ),
    ));
    assert(parts.unwrap().3 =~= w.lights@);
    assert(parts.unwrap().4 =~= w.dirlights@);
}

/// Each record line of a well-formed scene is free of the newline byte.
#[verifier::rlimit(100)]
#[verifier::spinoff_prover]
proof fn lemma_line_free(w: CWorld, i: int)
    requires
        scene_wf(w),
        0 <= i < scene_lines(w).len(),
    ensures
        crate::tokens::sep_free(scene_lines(w)[i], 10),
{
    let t = w.textures@.len() as int;
    let o = w.objs@.len() as int;
    let l = w.lights@.len() as int;
    let lines = scene_lines(w);
    if i == 0 {
        let fs = crate::viewer::viewer_fields(w.Viewer.pos);
        assert forall|k: int| 0 <= k < fs.len() implies crate::tokens::sep_free(
            #[trigger] fs[k],
            10,
        ) by {
            crate::codec::lemma_fmt_fx_plain(w.Viewer.pos.x as int);
            crate::codec::lemma_fmt_fx_plain(w.Viewer.pos.y as int);
            crate::codec::lemma_fmt_fx_plain(w.Viewer.pos.z as int);
        }
        crate::tokens::lemma_join_free(fs, 32, 10);
    } else if i == 1 {
        let fs = counts_fields(
            t,
            o,
            l,
            w.dirlights@.len() as int,
        );
        assert forall|k: int| 0 <= k < fs.len() implies crate::tokens::sep_free(
            #[trigger] fs[k],
            10,
        ) by {
            crate::codec::lemma_fmt_int_plain(t);
            crate::codec::lemma_fmt_int_plain(o);
            crate::codec::lemma_fmt_int_plain(l);
            crate::codec::lemma_fmt_int_plain(w.dirlights@.len() as int);
        }
        crate::tokens::lemma_join_free(fs, 32, 10);
    } else if i < 2 + t {
        let tex = w.textures@[i - 2];
        let fs = crate::texture::texture_fields(tex.path@, tex.id as int);
        assert forall|k: int| 0 <= k < fs.len() implies crate::tokens::sep_free(
            #[trigger] fs[k],
            10,
        ) by {
            crate::codec::lemma_fmt_int_plain(tex.id as int);
        }
        crate::tokens::lemma_join_free(fs, 32, 10);
        assert(lines[i] == texture_repr(tex.path@, tex.id as int));
    } else if i < 2 + t + o {
        let ob = w.objs@[i - 2 - t];
        let po = ob.physical_object;
        let fs = crate::game_object::object_fields(
            ob.model_name@,
            ob.texture_id as int,
            po.position,
            po.scale,
            po.speed,
        );
        assert forall|k: int| 0 <= k < fs.len() implies crate::tokens::sep_free(
            #[trigger] fs[k],
            10,
        ) by {
            crate::codec::lemma_fmt_int_plain(ob.texture_id as int);
            crate::codec::lemma_fmt_fx_plain(po.position.x as int);
            crate::codec::lemma_fmt_fx_plain(po.position.y as int);
            crate::codec::lemma_fmt_fx_plain(po.position.z as int);
            crate::codec::lemma_fmt_fx_plain(po.scale.x as int);
            crate::codec::lemma_fmt_fx_plain(po.scale.y as int);
            crate::codec::lemma_fmt_fx_plain(po.scale.z as int);
            crate::codec::lemma_fmt_fx_plain(po.speed.x as int);
            crate::codec::lemma_fmt_fx_plain(po.speed.y as int);
            crate::codec::lemma_fmt_fx_plain(po.speed.z as int);
        }
        crate::tokens::lemma_join_free(fs, 32, 10);
        assert(lines[i] == object_repr(ob));
    } else if i < 2 + t + o + l {
        let lt = w.lights@[i - 2 - t - o];
        let fs = crate::light::light_fields(lt);
        assert forall|k: int| 0 <= k < fs.len() implies crate::tokens::sep_free(
            #[trigger] fs[k],
            10,
        ) by {
            crate::codec::lemma_fmt_fx_plain(lt.pos.x as int);
            crate::codec::lemma_fmt_fx_plain(lt.pos.y as int);
            crate::codec::lemma_fmt_fx_plain(lt.pos.z as int);
            crate::codec::lemma_fmt_fx_plain(lt.color.x as int);
            crate::codec::lemma_fmt_fx_plain(lt.color.y as int);
            crate::codec::lemma_fmt_fx_plain(lt.color.z as int);
            crate::codec::lemma_fmt_fx_plain(lt.vector.x as int);
            crate::codec::lemma_fmt_fx_plain(lt.vector.y as int);
            crate::codec::lemma_fmt_fx_plain(lt.vector.z as int);
            crate::codec::lemma_fmt_fx_plain(lt.range as int);
        }
        crate::tokens::lemma_join_free(fs, 32, 10);
        assert(lines[i] == light_repr(lt));
    } else {
        let dl = w.dirlights@[i - 2 - t - o - l];
        let fs = crate::light::dirlight_fields(dl);
        assert forall|k: int| 0 <= k < fs.len() implies crate::tokens::sep_free(
            #[trigger] fs[k],
            10,
        ) by {
            crate::codec::lemma_fmt_fx_plain(dl.color.x as int);
            crate::codec::lemma_fmt_fx_plain(dl.color.y as int);
            crate::codec::lemma_fmt_fx_plain(dl.color.z as int);
            crate::codec::lemma_fmt_fx_plain(dl.vector.x as int);
            crate::codec::lemma_fmt_fx_plain(dl.vector.y as int);
            crate::codec::lemma_fmt_fx_plain(dl.vector.z as int);
        }
        crate::tokens::lemma_join_free(fs, 32, 10);
        assert(lines[i] == dirlight_repr(dl));
    }
}

} // verus!
