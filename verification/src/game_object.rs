//! A game object: the simulation state of one entity plus the data its
//! render side contributes to persistence — the model name and the bound
//! texture identifier.  Both sides are built from the same source model, so
//! the collision cloud and the render buffers never diverge.

use vstd::prelude::*;
use crate::codec::{fmt_fx, fmt_fx_e, fmt_int, fmt_int_e, parse_fx, parse_fx_e, parse_int,
    parse_int_e};
use crate::geometry::{cloud_max, cloud_min, inters};
use crate::input::{ElementState, VirtualKeyCode};
use crate::light::opt_val;
use crate::models::{cube_coords, cube_inds, CModel};
use crate::physical_object::{po_box, rolled, updated, CPhysicalObject};
use crate::tokens::{join_by, join_by_e, split_by, split_by_e};
use crate::vec3::{v3_add, v3_cross, v3_normalize, v3_scale, v3_sub, v3_zero, Vector3D};
use crate::fixed::{fx_mul, mul_fx};
use crate::texture::CTexture;
use crate::viewer::dir_after_key;

verus! {

pub struct CGameObject {
    pub physical_object: CPhysicalObject,
    pub model_name: Vec<u8>,
    pub texture_id: i64,
    pub dir: Vector3D,
}

/// The serialized fields of an object: model name, texture identifier, then
/// position, scale and speed.
pub open spec fn object_fields(
    name: Seq<u8>,
    tex_id: int,
    pos: Vector3D,
    scale: Vector3D,
    speed: Vector3D,
) -> Seq<Seq<u8>> {
    seq![
        name,
        fmt_int(tex_id),
        fmt_fx(pos.x as int),
        fmt_fx(pos.y as int),
        fmt_fx(pos.z as int),
        fmt_fx(scale.x as int),
        fmt_fx(scale.y as int),
        fmt_fx(scale.z as int),
        fmt_fx(speed.x as int),
        fmt_fx(speed.y as int),
        fmt_fx(speed.z as int),
    ]
}

pub open spec fn object_repr(o: CGameObject) -> Seq<u8> {
    join_by(
        object_fields(
            o.model_name@,
            o.texture_id as int,
            o.physical_object.position,
            o.physical_object.scale,
            o.physical_object.speed,
        ),
        32,
    )
}

/// The texture identifier an object ends up bound to: the requested one when
/// some texture carries it, else the first texture's.
pub open spec fn chosen_tex(ids: Seq<i64>, want: int) -> int
    recommends
        ids.len() > 0,
{
    if exists|k: int| 0 <= k < ids.len() && ids[k] == want {
        want
    } else {
        ids[0] as int
    }
}

/// An object line parsed back: the bound texture identifier, position,
/// scale and speed.  Fails without any texture to bind to.
pub open spec fn parse_object(s: Seq<u8>, ids: Seq<i64>) -> Option<
    (int, Vector3D, Vector3D, Vector3D),
> {
    let ts = split_by(s, 32);
    if ts.len() == 11 && ids.len() > 0 && parse_int(ts[1]) is Some && (forall|k: int|
        2 <= k < 11 ==> parse_fx(#[trigger] ts[k]) is Some) {
        Some(
            (
                chosen_tex(ids, opt_val(parse_int(ts[1]))),
                Vector3D {
                    x: opt_val(parse_fx(ts[2])) as i64,
                    y: opt_val(parse_fx(ts[3])) as i64,
                    z: opt_val(parse_fx(ts[4])) as i64,
                },
                Vector3D {
                    x: opt_val(parse_fx(ts[5])) as i64,
                    y: opt_val(parse_fx(ts[6])) as i64,
                    z: opt_val(parse_fx(ts[7])) as i64,
                },
                Vector3D {
                    x: opt_val(parse_fx(ts[8])) as i64,
                    y: opt_val(parse_fx(ts[9])) as i64,
                    z: opt_val(parse_fx(ts[10])) as i64,
                },
            ),
        )
    } else {
        None
    }
}

/// What a freshly loaded object looks like: a unit cube bound to the given
/// texture, with the position, scale and speed its line carried and every
/// other field at its starting value.
pub open spec fn loaded_obj_ok(o: CGameObject, parts: (int, Vector3D, Vector3D, Vector3D)) -> bool {
    &&& o.texture_id as int == parts.0
    &&& o.physical_object.position == parts.1
    &&& o.physical_object.scale == parts.2
    &&& o.physical_object.speed == parts.3
    &&& o.physical_object.old_position == v3_zero()
    &&& o.physical_object.rotate == v3_zero()
    &&& o.physical_object.power == v3_zero()
    &&& o.physical_object.coords@ == cube_coords(Vector3D { x: 1000, y: 1000, z: 1000 })
    &&& o.physical_object.inds@ == cube_inds()
    &&& o.physical_object.weight == 1000
    &&& !o.physical_object.movable
    &&& o.model_name@ == seq![99u8]
    &&& o.dir == v3_zero()
}

impl CGameObject {
    /// A fresh object over a source model, with unit mass.
    pub fn new(mdl: &CModel, texture_id: i64) -> (r: CGameObject)
        ensures
            r.physical_object.position == v3_zero(),
            r.physical_object.old_position == v3_zero(),
            r.physical_object.scale == (Vector3D { x: 1000, y: 1000, z: 1000 }),
            r.physical_object.rotate == v3_zero(),
            r.physical_object.speed == v3_zero(),
            r.physical_object.power == v3_zero(),
            r.physical_object.coords@ == mdl.coords@,
            r.physical_object.inds@ == mdl.inds@,
            r.physical_object.size == v3_sub(cloud_max(mdl.coords@), cloud_min(mdl.coords@)),
            r.physical_object.weight == 1000,
            !r.physical_object.movable,
            r.model_name@ == mdl.name@,
            r.texture_id == texture_id,
            r.dir == v3_zero(),
    {
        CGameObject {
            physical_object: CPhysicalObject::new(mdl, 1000),
            model_name: mdl.name.clone(),
            texture_id,
            dir: Vector3D { x: 0, y: 0, z: 0 },
        }
    }

    pub fn set_scale(&mut self, scale: Vector3D)
        ensures
            final(self).physical_object == (CPhysicalObject {
                scale,
                ..old(self).physical_object
            }),
            final(self).model_name == old(self).model_name,
            final(self).texture_id == old(self).texture_id,
            final(self).dir == old(self).dir,
    {
        self.physical_object.scale = scale;
    }

    pub fn set_pos(&mut self, pos: Vector3D)
        ensures
            final(self).physical_object == (CPhysicalObject {
                position: pos,
                ..old(self).physical_object
            }),
            final(self).model_name == old(self).model_name,
            final(self).texture_id == old(self).texture_id,
            final(self).dir == old(self).dir,
    {
        self.physical_object.position = pos;
    }

    pub fn set_rotate(&mut self, rotate: Vector3D)
        ensures
            final(self).physical_object == (CPhysicalObject {
                rotate,
                ..old(self).physical_object
            }),
            final(self).model_name == old(self).model_name,
            final(self).texture_id == old(self).texture_id,
            final(self).dir == old(self).dir,
    {
        self.physical_object.rotate = rotate;
    }

    /// Multiply the stored scale componentwise.
    pub fn scale(&mut self, scale: Vector3D)
        ensures
            final(self).physical_object == (CPhysicalObject {
                scale: Vector3D {
                    x: fx_mul(old(self).physical_object.scale.x as int, scale.x as int) as i64,
                    y: fx_mul(old(self).physical_object.scale.y as int, scale.y as int) as i64,
                    z: fx_mul(old(self).physical_object.scale.z as int, scale.z as int) as i64,
                },
                ..old(self).physical_object
            }),
            final(self).model_name == old(self).model_name,
            final(self).texture_id == old(self).texture_id,
            final(self).dir == old(self).dir,
    {
        let old_scale = self.physical_object.scale;
        self.physical_object.scale = Vector3D {
            x: mul_fx(old_scale.x, scale.x),
            y: mul_fx(old_scale.y, scale.y),
            z: mul_fx(old_scale.z, scale.z),
        };
    }

    /// Shift the position.
    pub fn pos(&mut self, pos: Vector3D)
        ensures
            final(self).physical_object == (CPhysicalObject {
                position: v3_add(old(self).physical_object.position, pos),
                ..old(self).physical_object
            }),
            final(self).model_name == old(self).model_name,
            final(self).texture_id == old(self).texture_id,
            final(self).dir == old(self).dir,
    {
        let old_pos = self.physical_object.position;
        self.physical_object.position = old_pos.add(&pos);
    }

    /// Turn by the given Euler angles.
    pub fn rotate(&mut self, rotate: Vector3D)
        ensures
            final(self).physical_object == (CPhysicalObject {
                rotate: v3_add(old(self).physical_object.rotate, rotate),
                ..old(self).physical_object
            }),
            final(self).model_name == old(self).model_name,
            final(self).texture_id == old(self).texture_id,
            final(self).dir == old(self).dir,
    {
        let old_rot = self.physical_object.rotate;
        self.physical_object.rotate = old_rot.add(&rotate);
    }

    pub fn rollback(&mut self)
        ensures
            final(self).physical_object == rolled(old(self).physical_object),
            final(self).model_name == old(self).model_name,
            final(self).texture_id == old(self).texture_id,
            final(self).dir == old(self).dir,
    {
        self.physical_object.rollback();
    }

    pub fn update(&mut self, time: i64)
        requires
            old(self).physical_object.weight != 0,
        ensures
            final(self).physical_object == updated(old(self).physical_object, time as int),
            final(self).model_name == old(self).model_name,
            final(self).texture_id == old(self).texture_id,
            final(self).dir == old(self).dir,
    {
        self.physical_object.update(time);
    }

    pub fn init(&mut self)
        ensures
            final(self).physical_object == (CPhysicalObject {
                power: v3_zero(),
                ..old(self).physical_object
            }),
            final(self).model_name == old(self).model_name,
            final(self).texture_id == old(self).texture_id,
            final(self).dir == old(self).dir,
    {
        self.physical_object.init();
    }

    /// Collision response beyond rollback is deliberately absent.
    pub fn collision(&self, _other: &CGameObject) {
    }

    #[verifier::rlimit(60)]
    pub fn save(&self) -> (out: Vec<u8>)
        ensures
            out@ == object_repr(*self),
    {
        let mut fields: Vec<Vec<u8>> = Vec::new();
        fields.push(self.model_name.clone());
        fields.push(fmt_int_e(self.texture_id));
        fields.push(fmt_fx_e(self.physical_object.position.x));
        fields.push(fmt_fx_e(self.physical_object.position.y));
        fields.push(fmt_fx_e(self.physical_object.position.z));
        fields.push(fmt_fx_e(self.physical_object.scale.x));
        fields.push(fmt_fx_e(self.physical_object.scale.y));
        fields.push(fmt_fx_e(self.physical_object.scale.z));
        fields.push(fmt_fx_e(self.physical_object.speed.x));
        fields.push(fmt_fx_e(self.physical_object.speed.y));
        fields.push(fmt_fx_e(self.physical_object.speed.z));
        proof {
            assert(fields.deep_view() =~~= object_fields(
                self.model_name@,
                self.texture_id as int,
                self.physical_object.position,
                self.physical_object.scale,
                self.physical_object.speed,
            ));
        }
        join_by_e(&fields, 32)
    }

    /// Rebuild an object from its line: a fresh unit cube bound to the
    /// texture the line names (or the first one), placed, scaled and given
    /// its speed back.
    pub fn load(data: &Vec<u8>, textures: &Vec<CTexture>) -> (r: Option<CGameObject>)
        ensures
            match parse_object(data@, Seq::new(textures@.len(), |i: int| textures@[i].id)) {
                Some(parts) => match r {
                    Some(o) => loaded_obj_ok(o, parts),
                    None => false,
                },
                None => r is None,
            },
    {
        let ghost ids = Seq::new(textures@.len(), |i: int| textures@[i].id);
        let ts = split_by_e(data, 32);
        let ghost sts = split_by(data@, 32);
        if ts.len() != 11 {
            return None;
        }
        if textures.len() == 0 {
            return None;
        }
        proof {
            assert forall|j: int| 0 <= j < 11 implies sts[j] == ts@[j]@ by {
                assert(sts[j] == ts@[j].deep_view());
                assert(ts@[j].deep_view() =~= ts@[j]@);
            }
        }
        let want = match parse_int_e(&ts[1]) {
            Some(v) => v,
            None => {
                return None;
            },
        };
        let mut vals: Vec<i64> = Vec::new();
        let mut k: usize = 2;
        while k < 11
            invariant
                2 <= k <= 11,
                sts == split_by(data@, 32),
                ts.deep_view() == sts,
                sts.len() == 11,
                ts@.len() == 11,
                vals@.len() == k - 2,
                forall|j: int|
                    2 <= j < k ==> parse_fx(#[trigger] sts[j]) == Some(vals@[j - 2] as int),
            decreases 11 - k,
        {
            proof {
                assert(sts[k as int] == ts@[k as int].deep_view());
                assert(ts@[k as int].deep_view() =~= ts@[k as int]@);
            }
            match parse_fx_e(&ts[k]) {
                Some(v) => vals.push(v),
                None => {
                    proof {
                        assert(!(forall|j: int|
                            2 <= j < 11 ==> parse_fx(#[trigger] sts[j]) is Some)) by {
                            assert(2 <= k < 11 && !(parse_fx(sts[k as int]) is Some));
                        }
                    }
                    return None;
                },
            }
            k += 1;
        }
        // bind the texture: first matching identifier, else the first texture
        let mut chosen: i64 = textures[0].id;
        let mut found = false;
        let mut t: usize = 0;
        while t < textures.len()
            invariant
                t <= textures@.len(),
                ids == Seq::new(textures@.len(), |i: int| textures@[i].id),
                textures@.len() > 0,
                !found ==> forall|j: int| 0 <= j < t ==> ids[j] != want,
                !found ==> chosen == textures@[0].id,
                found ==> chosen == want && (exists|j: int|
                    0 <= j < ids.len() && ids[j] == want),
            decreases textures@.len() - t,
        {
            if !found && textures[t].id == want {
                chosen = want;
                found = true;
                proof {
                    assert(ids[t as int] == textures@[t as int].id);
                }
            }
            t += 1;
        }
        proof {
            if !found {
                assert(forall|j: int| 0 <= j < ids.len() ==> ids[j] != want);
            }
            assert(chosen as int == chosen_tex(ids, want as int));
        }
        let mdl = CModel::cube(Vector3D { x: 1000, y: 1000, z: 1000 });
        let mut obj = CGameObject::new(&mdl, chosen);
        obj.set_scale(Vector3D { x: vals[3], y: vals[4], z: vals[5] });
        obj.set_pos(Vector3D { x: vals[0], y: vals[1], z: vals[2] });
        obj.physical_object.speed = Vector3D { x: vals[6], y: vals[7], z: vals[8] };
        Some(obj)
    }

    /// One key transition for an object steered as the camera subject; the
    /// speed follows the view direction flattened onto the ground plane.
    #[allow(non_snake_case)]
    pub fn KeyboardEvent(
        &mut self,
        state: ElementState,
        key: VirtualKeyCode,
        trg: Vector3D,
        up: Vector3D,
    )
        ensures
            final(self).dir == dir_after_key(old(self).dir, state, key),
            final(self).physical_object == (CPhysicalObject {
                speed: object_speed(dir_after_key(old(self).dir, state, key), trg, up),
                ..old(self).physical_object
            }),
            final(self).model_name == old(self).model_name,
            final(self).texture_id == old(self).texture_id,
    {
        let mut dir = self.dir;
        match (state, key) {
            (ElementState::Pressed, VirtualKeyCode::D) => {
                dir.z = -3000;
            },
            (ElementState::Released, VirtualKeyCode::D) => {
                dir.z = 0;
            },
            (ElementState::Pressed, VirtualKeyCode::A) => {
                dir.z = 3000;
            },
            (ElementState::Released, VirtualKeyCode::A) => {
                dir.z = 0;
            },
            (ElementState::Pressed, VirtualKeyCode::W) => {
                dir.x = -3000;
            },
            (ElementState::Released, VirtualKeyCode::W) => {
                dir.x = 0;
            },
            (ElementState::Pressed, VirtualKeyCode::S) => {
                dir.x = 3000;
            },
            (ElementState::Released, VirtualKeyCode::S) => {
                dir.x = 0;
            },
            _ => {},
        }
        let along = trg.projectionXOZ().scale(dir.x);
        let side = trg.cross(&up).scale(dir.z);
        let lift = Vector3D { x: 0, y: 1000, z: 0 }.scale(dir.y);
        self.physical_object.speed = along.add(&side).add(&lift);
        self.dir = dir;
    }

    #[allow(non_snake_case)]
    pub fn GetPosition(&self) -> (r: Vector3D)
        ensures
            r == self.physical_object.position,
    {
        self.physical_object.position
    }

    #[allow(non_snake_case)]
    pub fn GetSize(&self) -> (r: Vector3D)
        ensures
            r == self.physical_object.size,
    {
        self.physical_object.size
    }
}

/// The speed a steered object derives from its input direction: the view
/// direction is flattened onto the ground plane first.
pub open spec fn object_speed(dir: Vector3D, trg: Vector3D, up: Vector3D) -> Vector3D {
    v3_add(
        v3_add(
            v3_scale(v3_normalize(Vector3D { x: trg.x, y: 0, z: trg.z }), dir.x as int),
            v3_scale(v3_cross(trg, up), dir.z as int),
        ),
        v3_scale(Vector3D { x: 0, y: 1000, z: 0 }, dir.y as int),
    )
}

impl inters<CGameObject> for CGameObject {
    /// Strict overlap of the two world-space bounding boxes.
    open spec fn inters_spec(&self, other: &CGameObject) -> bool {
        crate::geometry::aabb_overlap(po_box(self.physical_object), po_box(other.physical_object))
    }

    fn intersect_with(&self, other: &CGameObject) -> (r: bool)
        ensures
            r == self.inters_spec(other),
    {
        self.physical_object.intersect_with(&other.physical_object)
    }
}

/// Saving an object and parsing the line back yields its texture binding,
/// position, scale and speed, as long as its identifier is really bound.
#[verifier::rlimit(80)]
pub proof fn lemma_object_round_trip(o: CGameObject, ids: Seq<i64>)
    requires
        crate::tokens::sep_free(o.model_name@, 32),
        crate::tokens::sep_free(o.model_name@, 10),
        ids.len() > 0,
        exists|k: int| 0 <= k < ids.len() && ids[k] == o.texture_id,
    ensures
        parse_object(object_repr(o), ids) == Some(
            (
                o.texture_id as int,
                o.physical_object.position,
                o.physical_object.scale,
                o.physical_object.speed,
            ),
        ),
{
    let po = o.physical_object;
    let fs = object_fields(o.model_name@, o.texture_id as int, po.position, po.scale, po.speed);
    assert forall|i: int| 0 <= i < fs.len() implies crate::tokens::sep_free(#[trigger] fs[i], 32) by {
        crate::codec::lemma_fmt_int_plain(o.texture_id as int);
        crate::codec::lemma_fmt_fx_plain(po.position.x as int);
        crate::codec::lemma_fmt_fx_plain(po.position.y as int);
        crate::codec::lemma_fmt_fx_plain(po.position.z as int);
        crate::codec::lemma_fmt_fx_plain(po.scale.x as int);
        crate::codec::lemma_fmt_fx_plain(po.scale.y as int);
        crate::codec::lemma_fmt_fx_plain(po.scale.z as int);
        crate::codec::lemma_fmt_fx_plain(po.speed.x as int);
        crate::codec::lemma_fmt_fx_plain(po.speed.y as int);
        crate::codec::lemma_fmt_fx_plain(po.speed.z as int);
    }
    crate::tokens::lemma_split_join(fs, 32);
    let ts = split_by(object_repr(o), 32);
    assert(ts == fs);
    crate::codec::lemma_parse_fmt_int(o.texture_id as int);
    crate::codec::lemma_parse_fmt_fx(po.position.x as int);
    crate::codec::lemma_parse_fmt_fx(po.position.y as int);
    crate::codec::lemma_parse_fmt_fx(po.position.z as int);
    crate::codec::lemma_parse_fmt_fx(po.scale.x as int);
    crate::codec::lemma_parse_fmt_fx(po.scale.y as int);
    crate::codec::lemma_parse_fmt_fx(po.scale.z as int);
    crate::codec::lemma_parse_fmt_fx(po.speed.x as int);
    crate::codec::lemma_parse_fmt_fx(po.speed.y as int);
    crate::codec::lemma_parse_fmt_fx(po.speed.z as int);
    assert(parse_int(ts[1]) == Some(o.texture_id as int));
    assert(opt_val(parse_fx(ts[2])) == po.position.x as int && opt_val(parse_fx(ts[3]))
        == po.position.y as int && opt_val(parse_fx(ts[4])) == po.position.z as int);
    assert(opt_val(parse_fx(ts[5])) == po.scale.x as int && opt_val(parse_fx(ts[6]))
        == po.scale.y as int && opt_val(parse_fx(ts[7])) == po.scale.z as int);
    assert(opt_val(parse_fx(ts[8])) == po.speed.x as int && opt_val(parse_fx(ts[9]))
        == po.speed.y as int && opt_val(parse_fx(ts[10])) == po.speed.z as int);
    assert(forall|k: int| 2 <= k < 11 ==> parse_fx(#[trigger] ts[k]) is Some);
    assert(chosen_tex(ids, o.texture_id as int) == o.texture_id as int);
    assert((Vector3D {
        x: opt_val(parse_fx(ts[2])) as i64,
        y: opt_val(parse_fx(ts[3])) as i64,
        z: opt_val(parse_fx(ts[4])) as i64,
    }) == po.position);
    assert((Vector3D {
        x: opt_val(parse_fx(ts[5])) as i64,
        y: opt_val(parse_fx(ts[6])) as i64,
        z: opt_val(parse_fx(ts[7])) as i64,
    }) == po.scale);
    assert((Vector3D {
        x: opt_val(parse_fx(ts[8])) as i64,
        y: opt_val(parse_fx(ts[9])) as i64,
        z: opt_val(parse_fx(ts[10])) as i64,
    }) == po.speed);
}

} // verus!
