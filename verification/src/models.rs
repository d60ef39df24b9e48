//! Source models: the local-space point cloud and index list a game object's
//! collision shape and render buffers are both built from.

use vstd::prelude::*;
use crate::fixed::{fx_neg, neg_fx};
use crate::vec3::{v3_scale, Vector3D};

verus! {

pub struct CModel {
    pub coords: Vec<Vector3D>,
    pub inds: Vec<u32>,
    pub name: Vec<u8>,
}

/// The eight corners of an axis-aligned box of the given edge sizes,
/// centered at the origin.
pub open spec fn cube_coords(size: Vector3D) -> Seq<Vector3D> {
    let s = v3_scale(size, 500);
    let nx = fx_neg(s.x as int) as i64;
    let ny = fx_neg(s.y as int) as i64;
    let nz = fx_neg(s.z as int) as i64;
    seq![
        Vector3D { x: nx, y: ny, z: nz },
        Vector3D { x: nx, y: s.y, z: nz },
        Vector3D { x: s.x, y: ny, z: nz },
        Vector3D { x: s.x, y: s.y, z: nz },
        Vector3D { x: nx, y: ny, z: s.z },
        Vector3D { x: nx, y: s.y, z: s.z },
        Vector3D { x: s.x, y: ny, z: s.z },
        Vector3D { x: s.x, y: s.y, z: s.z },
    ]
}

/// Two triangles for each of the six faces, indexing the 24-vertex render
/// layout derived from the same box.
pub open spec fn cube_inds() -> Seq<u32> {
    seq![
        1u32, 0, 2, 1, 2, 3, 4, 5, 6, 6, 5, 7, 8, 9, 10, 10, 9, 11, 13, 12, 14, 13, 14, 15, 16,
        17, 18, 18, 17, 19, 21, 20, 22, 21, 22, 23,
    ]
}

impl CModel {
    pub fn new(coords: &Vec<Vector3D>, inds: &Vec<u32>, name: &Vec<u8>) -> (r: CModel)
        ensures
            r.coords@ == coords@,
            r.inds@ == inds@,
            r.name@ == name@,
    {
        CModel { coords: coords.clone(), inds: inds.clone(), name: name.clone() }
    }

    /// The canonical cube model, named "c" in scene files.
    pub fn cube(size: Vector3D) -> (r: CModel)
        ensures
            r.coords@ == cube_coords(size),
            r.inds@ == cube_inds(),
            r.name@ == seq![99u8],
    {
        let s = size.scale(500);
        let nx = neg_fx(s.x);
        let ny = neg_fx(s.y);
        let nz = neg_fx(s.z);

        let coords: Vec<Vector3D> = vec![
            Vector3D { x: nx, y: ny, z: nz },
            Vector3D { x: nx, y: s.y, z: nz },
            Vector3D { x: s.x, y: ny, z: nz },
            Vector3D { x: s.x, y: s.y, z: nz },
            Vector3D { x: nx, y: ny, z: s.z },
            Vector3D { x: nx, y: s.y, z: s.z },
            Vector3D { x: s.x, y: ny, z: s.z },
            Vector3D { x: s.x, y: s.y, z: s.z },
        ];

        let inds: Vec<u32> = vec![
            1u32, 0, 2, 1, 2, 3, 4, 5, 6, 6, 5, 7, 8, 9, 10, 10, 9, 11, 13, 12, 14, 13, 14, 15,
            16, 17, 18, 18, 17, 19, 21, 20, 22, 21, 22, 23,
        ];

        let name: Vec<u8> = vec![99u8];

        proof {
            assert(coords@ =~= cube_coords(size));
            assert(inds@ =~= cube_inds());
            assert(name@ =~= seq![99u8]);
        }
        CModel { coords, inds, name }
    }
}

} // verus!
