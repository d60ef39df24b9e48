//! Light sources: a point light with position, color, direction and angular
//! range, and a directional light with color and direction only.  Each kind
//! serializes to one whitespace-joined line of fixed-point fields.

use vstd::prelude::*;
use crate::codec::{fmt_fx, fmt_fx_e, parse_fx, parse_fx_e};
use crate::tokens::{join_by, join_by_e, split_by, split_by_e};
use crate::vec3::Vector3D;

verus! {

#[derive(Clone, Copy, PartialEq, Eq, Structural, Debug)]
pub struct CLight {
    pub pos: Vector3D,
    pub color: Vector3D,
    pub attenuation: Vector3D,
    pub vector: Vector3D,
    pub range: i64,
    pub maxradius: i64,
}

#[derive(Clone, Copy, PartialEq, Eq, Structural, Debug)]
pub struct CDirectionLight {
    pub color: Vector3D,
    pub vector: Vector3D,
}

pub open spec fn default_attenuation() -> Vector3D {
    Vector3D { x: 100, y: 100, z: 30 }
}

pub open spec fn opt_val(o: Option<int>) -> int {
    match o {
        Some(v) => v,
        None => 0,
    }
}

/// The serialized fields of a point light: position, color, direction,
/// angular range.  Attenuation and maximum radius are not persisted.
pub open spec fn light_fields(l: CLight) -> Seq<Seq<u8>> {
    seq![
        fmt_fx(l.pos.x as int),
        fmt_fx(l.pos.y as int),
        fmt_fx(l.pos.z as int),
        fmt_fx(l.color.x as int),
        fmt_fx(l.color.y as int),
        fmt_fx(l.color.z as int),
        fmt_fx(l.vector.x as int),
        fmt_fx(l.vector.y as int),
        fmt_fx(l.vector.z as int),
        fmt_fx(l.range as int),
    ]
}

pub open spec fn light_repr(l: CLight) -> Seq<u8> {
    join_by(light_fields(l), 32)
}

/// A point light rebuilt from ten parsed fields; unserialized fields take
/// their defaults.
pub open spec fn light_from(vs: Seq<int>) -> CLight {
    CLight {
        pos: Vector3D { x: vs[0] as i64, y: vs[1] as i64, z: vs[2] as i64 },
        color: Vector3D { x: vs[3] as i64, y: vs[4] as i64, z: vs[5] as i64 },
        attenuation: default_attenuation(),
        vector: Vector3D { x: vs[6] as i64, y: vs[7] as i64, z: vs[8] as i64 },
        range: vs[9] as i64,
        maxradius: 20000,
    }
}

pub open spec fn parse_light(s: Seq<u8>) -> Option<CLight> {
    let ts = split_by(s, 32);
    if ts.len() == 10 && (forall|k: int| 0 <= k < 10 ==> parse_fx(#[trigger] ts[k]) is Some) {
        Some(light_from(Seq::new(10, |k: int| opt_val(parse_fx(ts[k])))))
    } else {
        None
    }
}

/// The serialized fields of a directional light: color, then direction.
pub open spec fn dirlight_fields(l: CDirectionLight) -> Seq<Seq<u8>> {
    seq![
        fmt_fx(l.color.x as int),
        fmt_fx(l.color.y as int),
        fmt_fx(l.color.z as int),
        fmt_fx(l.vector.x as int),
        fmt_fx(l.vector.y as int),
        fmt_fx(l.vector.z as int),
    ]
}

pub open spec fn dirlight_repr(l: CDirectionLight) -> Seq<u8> {
    join_by(dirlight_fields(l), 32)
}

pub open spec fn dirlight_from(vs: Seq<int>) -> CDirectionLight {
    CDirectionLight {
        color: Vector3D { x: vs[0] as i64, y: vs[1] as i64, z: vs[2] as i64 },
        vector: Vector3D { x: vs[3] as i64, y: vs[4] as i64, z: vs[5] as i64 },
    }
}

pub open spec fn parse_dirlight(s: Seq<u8>) -> Option<CDirectionLight> {
    let ts = split_by(s, 32);
    if ts.len() == 6 && (forall|k: int| 0 <= k < 6 ==> parse_fx(#[trigger] ts[k]) is Some) {
        Some(dirlight_from(Seq::new(6, |k: int| opt_val(parse_fx(ts[k])))))
    } else {
        None
    }
}

impl CLight {
    pub fn new() -> (r: CLight)
        ensures
            r.pos == (Vector3D { x: 0, y: 0, z: 0 }),
            r.color == (Vector3D { x: 1000, y: 0, z: 0 }),
            r.attenuation == default_attenuation(),
            r.vector == (Vector3D { x: 1000, y: 0, z: 0 }),
            r.range == crate::trig::HALF_TURN,
            r.maxradius == 20000,
    {
        CLight {
            pos: Vector3D { x: 0, y: 0, z: 0 },
            color: Vector3D { x: 1000, y: 0, z: 0 },
            attenuation: Vector3D { x: 100, y: 100, z: 30 },
            vector: Vector3D { x: 1000, y: 0, z: 0 },
            range: crate::trig::HALF_TURN,
            maxradius: 20000,
        }
    }

    pub fn set_pos(&mut self, pos: Vector3D)
        ensures
            *final(self) == (CLight { pos, ..*old(self) }),
    {
        self.pos = pos;
    }

    pub fn set_color(&mut self, color: Vector3D)
        ensures
            *final(self) == (CLight { color, ..*old(self) }),
    {
        self.color = color;
    }

    pub fn set_range(&mut self, range: i64)
        ensures
            *final(self) == (CLight { range, ..*old(self) }),
    {
        self.range = range;
    }

    pub fn set_vector(&mut self, vector: Vector3D)
        ensures
            *final(self) == (CLight { vector, ..*old(self) }),
    {
        self.vector = vector;
    }

    pub fn save(&self) -> (out: Vec<u8>)
        ensures
            out@ == light_repr(*self),
    {
        let mut fields: Vec<Vec<u8>> = Vec::new();
        fields.push(fmt_fx_e(self.pos.x));
        fields.push(fmt_fx_e(self.pos.y));
        fields.push(fmt_fx_e(self.pos.z));
        fields.push(fmt_fx_e(self.color.x));
        fields.push(fmt_fx_e(self.color.y));
        fields.push(fmt_fx_e(self.color.z));
        fields.push(fmt_fx_e(self.vector.x));
        fields.push(fmt_fx_e(self.vector.y));
        fields.push(fmt_fx_e(self.vector.z));
        fields.push(fmt_fx_e(self.range));
        proof {
            assert(fields.deep_view() =~~= light_fields(*self));
        }
        join_by_e(&fields, 32)
    }

    pub fn load(data: &Vec<u8>) -> (r: Option<CLight>)
        ensures
            r == parse_light(data@),
    {
        let ts = split_by_e(data, 32);
        let ghost sts = split_by(data@, 32);
        if ts.len() != 10 {
            return None;
        }
        let mut vals: Vec<i64> = Vec::new();
        let mut k: usize = 0;
        while k < 10
            invariant
                k <= 10,
                sts == split_by(data@, 32),
                ts.deep_view() == sts,
                sts.len() == 10,
                ts@.len() == 10,
                vals@.len() == k,
                forall|j: int|
                    0 <= j < k ==> parse_fx(#[trigger] sts[j]) == Some(vals@[j] as int),
            decreases 10 - k,
        {
            proof {
                assert(sts[k as int] == ts@[k as int].deep_view());
                assert(ts@[k as int].deep_view() =~= ts@[k as int]@);
            }
            match parse_fx_e(&ts[k]) {
                Some(v) => vals.push(v),
                None => {
                    proof {
                        assert(!(forall|j: int|
                            0 <= j < 10 ==> parse_fx(#[trigger] sts[j]) is Some)) by {
                            assert(0 <= k < 10 && !(parse_fx(sts[k as int]) is Some));
                        }
                    }
                    return None;
                },
            }
            k += 1;
        }
        proof {
            assert(forall|j: int| 0 <= j < 10 ==> parse_fx(#[trigger] sts[j]) is Some);
            assert(Seq::new(10, |k: int| opt_val(parse_fx(sts[k]))) =~= Seq::new(
                10,
                |k: int| vals@[k] as int,
            ));
        }
        let mut light = CLight::new();
        light.set_pos(Vector3D { x: vals[0], y: vals[1], z: vals[2] });
        light.set_color(Vector3D { x: vals[3], y: vals[4], z: vals[5] });
        light.set_vector(Vector3D { x: vals[6], y: vals[7], z: vals[8] });
        light.set_range(vals[9]);
        Some(light)
    }
}

impl CDirectionLight {
    pub fn new() -> (r: CDirectionLight)
        ensures
            r.color == (Vector3D { x: 300, y: 300, z: 300 }),
            r.vector == (Vector3D { x: 1000, y: 500, z: 0 }),
    {
        CDirectionLight {
            color: Vector3D { x: 300, y: 300, z: 300 },
            vector: Vector3D { x: 1000, y: 500, z: 0 },
        }
    }

    pub fn set_color(&mut self, color: Vector3D)
        ensures
            *final(self) == (CDirectionLight { color, ..*old(self) }),
    {
        self.color = color;
    }

    pub fn set_vector(&mut self, vector: Vector3D)
        ensures
            *final(self) == (CDirectionLight { vector, ..*old(self) }),
    {
        self.vector = vector;
    }

    pub fn save(&self) -> (out: Vec<u8>)
        ensures
            out@ == dirlight_repr(*self),
    {
        let mut fields: Vec<Vec<u8>> = Vec::new();
        fields.push(fmt_fx_e(self.color.x));
        fields.push(fmt_fx_e(self.color.y));
        fields.push(fmt_fx_e(self.color.z));
        fields.push(fmt_fx_e(self.vector.x));
        fields.push(fmt_fx_e(self.vector.y));
        fields.push(fmt_fx_e(self.vector.z));
        proof {
            assert(fields.deep_view() =~~= dirlight_fields(*self));
        }
        join_by_e(&fields, 32)
    }

    pub fn load(data: &Vec<u8>) -> (r: Option<CDirectionLight>)
        ensures
            r == parse_dirlight(data@),
    {
        let ts = split_by_e(data, 32);
        let ghost sts = split_by(data@, 32);
        if ts.len() != 6 {
            return None;
        }
        let mut vals: Vec<i64> = Vec::new();
        let mut k: usize = 0;
        while k < 6
            invariant
                k <= 6,
                sts == split_by(data@, 32),
                ts.deep_view() == sts,
                sts.len() == 6,
                ts@.len() == 6,
                vals@.len() == k,
                forall|j: int|
                    0 <= j < k ==> parse_fx(#[trigger] sts[j]) == Some(vals@[j] as int),
            decreases 6 - k,
        {
            proof {
                assert(sts[k as int] == ts@[k as int].deep_view());
                assert(ts@[k as int].deep_view() =~= ts@[k as int]@);
            }
            match parse_fx_e(&ts[k]) {
                Some(v) => vals.push(v),
                None => {
                    proof {
                        assert(!(forall|j: int|
                            0 <= j < 6 ==> parse_fx(#[trigger] sts[j]) is Some)) by {
                            assert(0 <= k < 6 && !(parse_fx(sts[k as int]) is Some));
                        }
                    }
                    return None;
                },
            }
            k += 1;
        }
        proof {
            assert(forall|j: int| 0 <= j < 6 ==> parse_fx(#[trigger] sts[j]) is Some);
            assert(Seq::new(6, |k: int| opt_val(parse_fx(sts[k]))) =~= Seq::new(
                6,
                |k: int| vals@[k] as int,
            ));
        }
        let mut light = CDirectionLight::new();
        light.set_color(Vector3D { x: vals[0], y: vals[1], z: vals[2] });
        light.set_vector(Vector3D { x: vals[3], y: vals[4], z: vals[5] });
        Some(light)
    }
}

/// Saving a point light and loading the line back restores every persisted
/// field; the unpersisted attenuation and radius must already sit at their
/// defaults, as every light reachable in play does.
#[verifier::rlimit(60)]
pub proof fn lemma_light_round_trip(l: CLight)
    requires
        l.attenuation == default_attenuation(),
        l.maxradius == 20000,
    ensures
        parse_light(light_repr(l)) == Some(l),
{
    let fs = light_fields(l);
    assert forall|i: int| 0 <= i < fs.len() implies crate::tokens::sep_free(#[trigger] fs[i], 32) by {
        lemma_field_plain(l, i);
    }
    crate::tokens::lemma_split_join(fs, 32);
    crate::codec::lemma_parse_fmt_fx(l.pos.x as int);
    crate::codec::lemma_parse_fmt_fx(l.pos.y as int);
    crate::codec::lemma_parse_fmt_fx(l.pos.z as int);
    crate::codec::lemma_parse_fmt_fx(l.color.x as int);
    crate::codec::lemma_parse_fmt_fx(l.color.y as int);
    crate::codec::lemma_parse_fmt_fx(l.color.z as int);
    crate::codec::lemma_parse_fmt_fx(l.vector.x as int);
    crate::codec::lemma_parse_fmt_fx(l.vector.y as int);
    crate::codec::lemma_parse_fmt_fx(l.vector.z as int);
    crate::codec::lemma_parse_fmt_fx(l.range as int);
    let vs = Seq::new(10, |k: int| opt_val(parse_fx(fs[k])));
    assert(vs[0] == l.pos.x as int && vs[1] == l.pos.y as int && vs[2] == l.pos.z as int);
    assert(vs[3] == l.color.x as int && vs[4] == l.color.y as int && vs[5] == l.color.z as int);
    assert(vs[6] == l.vector.x as int && vs[7] == l.vector.y as int && vs[8] == l.vector.z as int);
    assert(vs[9] == l.range as int);
    assert(light_from(vs) == l);
}

proof fn lemma_field_plain(l: CLight, i: int)
    requires
        0 <= i < light_fields(l).len(),
    ensures
        crate::tokens::sep_free(light_fields(l)[i], 32),
{
    crate::codec::lemma_fmt_fx_plain(l.pos.x as int);
    crate::codec::lemma_fmt_fx_plain(l.pos.y as int);
    crate::codec::lemma_fmt_fx_plain(l.pos.z as int);
    crate::codec::lemma_fmt_fx_plain(l.color.x as int);
    crate::codec::lemma_fmt_fx_plain(l.color.y as int);
    crate::codec::lemma_fmt_fx_plain(l.color.z as int);
    crate::codec::lemma_fmt_fx_plain(l.vector.x as int);
    crate::codec::lemma_fmt_fx_plain(l.vector.y as int);
    crate::codec::lemma_fmt_fx_plain(l.vector.z as int);
    crate::codec::lemma_fmt_fx_plain(l.range as int);
}

/// Saving a directional light and loading the line back restores it.
pub proof fn lemma_dirlight_round_trip(l: CDirectionLight)
    ensures
        parse_dirlight(dirlight_repr(l)) == Some(l),
{
    let fs = dirlight_fields(l);
    assert forall|i: int| 0 <= i < fs.len() implies crate::tokens::sep_free(#[trigger] fs[i], 32) by {
        crate::codec::lemma_fmt_fx_plain(l.color.x as int);
        crate::codec::lemma_fmt_fx_plain(l.color.y as int);
        crate::codec::lemma_fmt_fx_plain(l.color.z as int);
        crate::codec::lemma_fmt_fx_plain(l.vector.x as int);
        crate::codec::lemma_fmt_fx_plain(l.vector.y as int);
        crate::codec::lemma_fmt_fx_plain(l.vector.z as int);
    }
    crate::tokens::lemma_split_join(fs, 32);
    crate::codec::lemma_parse_fmt_fx(l.color.x as int);
    crate::codec::lemma_parse_fmt_fx(l.color.y as int);
    crate::codec::lemma_parse_fmt_fx(l.color.z as int);
    crate::codec::lemma_parse_fmt_fx(l.vector.x as int);
    crate::codec::lemma_parse_fmt_fx(l.vector.y as int);
    crate::codec::lemma_parse_fmt_fx(l.vector.z as int);
    let vs = Seq::new(6, |k: int| opt_val(parse_fx(fs[k])));
    assert(dirlight_from(vs) == l);
}

} // verus!
