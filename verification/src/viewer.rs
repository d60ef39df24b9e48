//! The free-fly viewer: a camera subject with a position and a speed driven
//! directly by the movement keys, independent of any game object.

use vstd::prelude::*;
use crate::codec::{fmt_fx, fmt_fx_e, parse_fx, parse_fx_e};
use crate::input::{ElementState, VirtualKeyCode};
use crate::tokens::{join_by, join_by_e, split_by, split_by_e};
use crate::vec3::{v3_add, v3_cross, v3_scale, Vector3D};

verus! {

#[derive(Clone, Copy, PartialEq, Eq, Structural, Debug)]
pub struct CViewer {
    pub pos: Vector3D,
    pub dir: Vector3D,
    pub speed: Vector3D,
}

/// The input direction after one key transition: strafing on the local z
/// axis, walking on the local x axis.
pub open spec fn dir_after_key(dir: Vector3D, state: ElementState, key: VirtualKeyCode) -> Vector3D {
    match (state, key) {
        (ElementState::Pressed, VirtualKeyCode::D) => Vector3D { z: (-3000) as i64, ..dir },
        (ElementState::Released, VirtualKeyCode::D) => Vector3D { z: 0, ..dir },
        (ElementState::Pressed, VirtualKeyCode::A) => Vector3D { z: 3000, ..dir },
        (ElementState::Released, VirtualKeyCode::A) => Vector3D { z: 0, ..dir },
        (ElementState::Pressed, VirtualKeyCode::W) => Vector3D { x: (-3000) as i64, ..dir },
        (ElementState::Released, VirtualKeyCode::W) => Vector3D { x: 0, ..dir },
        (ElementState::Pressed, VirtualKeyCode::S) => Vector3D { x: 3000, ..dir },
        (ElementState::Released, VirtualKeyCode::S) => Vector3D { x: 0, ..dir },
        _ => dir,
    }
}

/// The speed the viewer derives from its input direction: along the view
/// direction, its horizontal normal, and the vertical axis.
pub open spec fn viewer_speed(dir: Vector3D, trg: Vector3D, up: Vector3D) -> Vector3D {
    v3_add(
        v3_add(v3_scale(trg, dir.x as int), v3_scale(v3_cross(trg, up), dir.z as int)),
        v3_scale(Vector3D { x: 0, y: 1000, z: 0 }, dir.y as int),
    )
}

pub open spec fn viewer_fields(pos: Vector3D) -> Seq<Seq<u8>> {
    seq![fmt_fx(pos.x as int), fmt_fx(pos.y as int), fmt_fx(pos.z as int)]
}

/// The scene-file line of the viewer: its position.
pub open spec fn viewer_repr(pos: Vector3D) -> Seq<u8> {
    join_by(viewer_fields(pos), 32)
}

pub open spec fn parse_viewer(s: Seq<u8>) -> Option<Vector3D> {
    let ts = split_by(s, 32);
    if ts.len() == 3 && (forall|k: int| 0 <= k < 3 ==> parse_fx(#[trigger] ts[k]) is Some) {
        Some(
            Vector3D {
                x: crate::light::opt_val(parse_fx(ts[0])) as i64,
                y: crate::light::opt_val(parse_fx(ts[1])) as i64,
                z: crate::light::opt_val(parse_fx(ts[2])) as i64,
            },
        )
    } else {
        None
    }
}

impl CViewer {
    pub fn new(pos: Vector3D) -> (r: CViewer)
        ensures
            r.pos == pos,
            r.dir == (Vector3D { x: 0, y: 0, z: 0 }),
            r.speed == (Vector3D { x: 0, y: 0, z: 0 }),
    {
        CViewer {
            pos,
            dir: Vector3D { x: 0, y: 0, z: 0 },
            speed: Vector3D { x: 0, y: 0, z: 0 },
        }
    }

    /// Advance the position by the stored speed over the elapsed time.
    pub fn update(&mut self, time: i64)
        ensures
            *final(self) == (CViewer {
                pos: v3_add(old(self).pos, v3_scale(old(self).speed, time as int)),
                ..*old(self)
            }),
    {
        let step = self.speed.scale(time);
        self.pos = self.pos.add(&step);
    }

    pub fn save(&self) -> (out: Vec<u8>)
        ensures
            out@ == viewer_repr(self.pos),
    {
        let mut fields: Vec<Vec<u8>> = Vec::new();
        fields.push(fmt_fx_e(self.pos.x));
        fields.push(fmt_fx_e(self.pos.y));
        fields.push(fmt_fx_e(self.pos.z));
        proof {
            assert(fields.deep_view() =~~= viewer_fields(self.pos));
        }
        join_by_e(&fields, 32)
    }

    /// Replace the position from a parsed line; a malformed line changes
    /// nothing and reports failure.
    pub fn load(&mut self, data: &Vec<u8>) -> (ok: bool)
        ensures
            match parse_viewer(data@) {
                Some(p) => ok && *final(self) == (CViewer { pos: p, ..*old(self) }),
                None => !ok && *final(self) == *old(self),
            },
    {
        let ts = split_by_e(data, 32);
        let ghost sts = split_by(data@, 32);
        if ts.len() != 3 {
            return false;
        }
        proof {
            assert(sts[0] == ts@[0].deep_view());
            assert(ts@[0].deep_view() =~= ts@[0]@);
            assert(sts[1] == ts@[1].deep_view());
            assert(ts@[1].deep_view() =~= ts@[1]@);
            assert(sts[2] == ts@[2].deep_view());
            assert(ts@[2].deep_view() =~= ts@[2]@);
        }
        let x = match parse_fx_e(&ts[0]) {
            Some(v) => v,
            None => {
                return false;
            },
        };
        let y = match parse_fx_e(&ts[1]) {
            Some(v) => v,
            None => {
                return false;
            },
        };
        let z = match parse_fx_e(&ts[2]) {
            Some(v) => v,
            None => {
                return false;
            },
        };
        self.pos = Vector3D { x, y, z };
        true
    }

    /// One key transition: update the stored input direction and derive the
    /// speed from it.
    #[allow(non_snake_case)]
    pub fn KeyboardEvent(
        &mut self,
        state: ElementState,
        key: VirtualKeyCode,
        trg: Vector3D,
        up: Vector3D,
    )
        ensures
            final(self).dir == dir_after_key(old(self).dir, state, key),
            final(self).speed == viewer_speed(dir_after_key(old(self).dir, state, key), trg, up),
            final(self).pos == old(self).pos,
    {
        let mut dir = self.dir;
        match (state, key) {
            (ElementState::Pressed, VirtualKeyCode::D) => {
                dir.z = -3000;
            },
            (ElementState::Released, VirtualKeyCode::D) => {
                dir.z = 0;
            },
            (ElementState::Pressed, VirtualKeyCode::A) => {
                dir.z = 3000;
            },
            (ElementState::Released, VirtualKeyCode::A) => {
                dir.z = 0;
            },
            (ElementState::Pressed, VirtualKeyCode::W) => {
                dir.x = -3000;
            },
            (ElementState::Released, VirtualKeyCode::W) => {
                dir.x = 0;
            },
            (ElementState::Pressed, VirtualKeyCode::S) => {
                dir.x = 3000;
            },
            (ElementState::Released, VirtualKeyCode::S) => {
                dir.x = 0;
            },
            _ => {},
        }
        let along = trg.scale(dir.x);
        let side = trg.cross(&up).scale(dir.z);
        let lift = Vector3D { x: 0, y: 1000, z: 0 }.scale(dir.y);
        self.speed = along.add(&side).add(&lift);
        self.dir = dir;
    }

    #[allow(non_snake_case)]
    pub fn GetPosition(&self) -> (r: Vector3D)
        ensures
            r == self.pos,
    {
        self.pos
    }

    #[allow(non_snake_case)]
    pub fn GetSize(&self) -> (r: Vector3D)
        ensures
            r == (Vector3D { x: 0, y: 0, z: 0 }),
    {
        Vector3D { x: 0, y: 0, z: 0 }
    }
}

/// Saving the viewer line and parsing it back restores the position.
pub proof fn lemma_viewer_round_trip(pos: Vector3D)
    ensures
        parse_viewer(viewer_repr(pos)) == Some(pos),
{
    let fs = viewer_fields(pos);
    assert forall|i: int| 0 <= i < fs.len() implies crate::tokens::sep_free(#[trigger] fs[i], 32) by {
        crate::codec::lemma_fmt_fx_plain(pos.x as int);
        crate::codec::lemma_fmt_fx_plain(pos.y as int);
        crate::codec::lemma_fmt_fx_plain(pos.z as int);
    }
    crate::tokens::lemma_split_join(fs, 32);
    crate::codec::lemma_parse_fmt_fx(pos.x as int);
    crate::codec::lemma_parse_fmt_fx(pos.y as int);
    crate::codec::lemma_parse_fmt_fx(pos.z as int);
}

} // verus!
