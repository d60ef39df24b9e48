//! Texture references: a filesystem path paired with a stable numeric
//! identifier.  Decoding image data is a collaborator's job; the scene core
//! only keeps the identifier-to-path mapping that objects bind to.

use vstd::prelude::*;
use crate::codec::{fmt_int, fmt_int_e, parse_int};
use crate::tokens::{join_by, join_by_e, sep_free, split_by};

verus! {

pub struct CTexture {
    pub path: Vec<u8>,
    pub id: i64,
}

pub open spec fn texture_fields(path: Seq<u8>, id: int) -> Seq<Seq<u8>> {
    seq![path, fmt_int(id)]
}

/// The scene-file line of a texture: path, then identifier.
pub open spec fn texture_repr(path: Seq<u8>, id: int) -> Seq<u8> {
    join_by(texture_fields(path, id), 32)
}

/// A texture line parsed back: two fields, the second an integer.
pub open spec fn parse_texture(s: Seq<u8>) -> Option<(Seq<u8>, int)> {
    let ts = split_by(s, 32);
    if ts.len() == 2 && parse_int(ts[1]) is Some {
        Some((ts[0], parse_texture_id(ts[1])))
    } else {
        None
    }
}

pub open spec fn parse_texture_id(t: Seq<u8>) -> int {
    match parse_int(t) {
        Some(v) => v,
        None => 0,
    }
}

impl CTexture {
    pub fn new(id: i64, path: Vec<u8>) -> (r: CTexture)
        ensures
            r.path@ == path@,
            r.id == id,
    {
        CTexture { path, id }
    }

    pub fn save(&self) -> (out: Vec<u8>)
        ensures
            out@ == texture_repr(self.path@, self.id as int),
    {
        let mut fields: Vec<Vec<u8>> = Vec::new();
        fields.push(self.path.clone());
        fields.push(fmt_int_e(self.id));
        proof {
            assert(fields.deep_view() =~~= texture_fields(self.path@, self.id as int));
        }
        join_by_e(&fields, 32)
    }
}

impl CTexture {
    /// Rebuild a texture reference from its line; decoding the image behind
    /// the path is the shell's job.
    pub fn load(data: &Vec<u8>) -> (r: Option<CTexture>)
        ensures
            match parse_texture(data@) {
                Some(parts) => match r {
                    Some(t) => t.path@ == parts.0 && t.id as int == parts.1,
                    None => false,
                },
                None => r is None,
            },
    {
        let ts = crate::tokens::split_by_e(data, 32);
        let ghost sts = split_by(data@, 32);
        if ts.len() != 2 {
            return None;
        }
        proof {
            assert(sts[0] == ts@[0].deep_view());
            assert(ts@[0].deep_view() =~= ts@[0]@);
            assert(sts[1] == ts@[1].deep_view());
            assert(ts@[1].deep_view() =~= ts@[1]@);
        }
        let id = match crate::codec::parse_int_e(&ts[1]) {
            Some(v) => v,
            None => {
                return None;
            },
        };
        let path = ts[0].clone();
        Some(CTexture { path, id })
    }
}

/// A texture line with a separator-free path parses back to its fields.
pub proof fn lemma_texture_round_trip(path: Seq<u8>, id: int)
    requires
        sep_free(path, 32),
        i64::MIN <= id <= i64::MAX,
    ensures
        parse_texture(texture_repr(path, id)) == Some((path, id)),
{
    crate::codec::lemma_fmt_int_plain(id);
    crate::tokens::lemma_split_join(texture_fields(path, id), 32);
    crate::codec::lemma_parse_fmt_int(id);
}

} // verus!
