//! Resolving a triangulated mesh's face indices.
//!
//! A mesh arrives as parallel arrays: vertex positions (3 scalars per
//! vertex), texture coordinates (2 per vertex), and per-face index
//! triples into each.  Turning a face into a triangle means resolving its
//! three vertex indices and three texture-coordinate indices into base
//! offsets in those arrays; an index that points outside them is a fatal
//! input-contract violation, never a partial recovery.  The offset
//! arithmetic and the bounds checks are what is verified here.

use vstd::prelude::*;

verus! {

/// Where one face's data lives in the mesh's parallel arrays: the base
/// offset of each of its three vertices in the position array, and of
/// each of its three texture coordinates in the UV array.
#[derive(Clone, Copy, PartialEq, Eq, Structural, Debug)]
pub struct FaceSlots {
    pub p0: usize,
    pub p1: usize,
    pub p2: usize,
    pub t0: usize,
    pub t1: usize,
    pub t2: usize,
}

/// Face `face` exists and all six of its indices stay inside the mesh's
/// arrays: each vertex index addresses 3 scalars of the position array,
/// each texture-coordinate index 2 scalars of the UV array.
pub open spec fn face_in_bounds(
    face: int,
    vertex_indices: Seq<u32>,
    texcoord_indices: Seq<u32>,
    positions_len: int,
    texcoords_len: int,
) -> bool {
    &&& 0 <= face
    &&& 3 * face + 3 <= vertex_indices.len()
    &&& 3 * face + 3 <= texcoord_indices.len()
    &&& 3 * vertex_indices[3 * face] + 3 <= positions_len
    &&& 3 * vertex_indices[3 * face + 1] + 3 <= positions_len
    &&& 3 * vertex_indices[3 * face + 2] + 3 <= positions_len
    &&& 2 * texcoord_indices[3 * face] + 2 <= texcoords_len
    &&& 2 * texcoord_indices[3 * face + 1] + 2 <= texcoords_len
    &&& 2 * texcoord_indices[3 * face + 2] + 2 <= texcoords_len
}

/// Resolves face `face` of the mesh into base offsets, or reports that
/// one of its indices falls outside the arrays.
pub fn face_slots(
    face: usize,
    vertex_indices: &Vec<u32>,
    texcoord_indices: &Vec<u32>,
    positions_len: usize,
    texcoords_len: usize,
) -> (slots: Option<FaceSlots>)
    ensures
        slots is Some <==> face_in_bounds(
            face as int,
            vertex_indices@,
            texcoord_indices@,
            positions_len as int,
            texcoords_len as int,
        ),
        slots matches Some(s) ==> {
            &&& s.p0 == 3 * vertex_indices@[3 * face]
            &&& s.p1 == 3 * vertex_indices@[3 * face + 1]
            &&& s.p2 == 3 * vertex_indices@[3 * face + 2]
            &&& s.t0 == 2 * texcoord_indices@[3 * face]
            &&& s.t1 == 2 * texcoord_indices@[3 * face + 1]
            &&& s.t2 == 2 * texcoord_indices@[3 * face + 2]
        },
{
    proof {
        vstd::arithmetic::div_mod::lemma_fundamental_div_mod(vertex_indices@.len() as int, 3);
        vstd::arithmetic::div_mod::lemma_fundamental_div_mod(texcoord_indices@.len() as int, 3);
    }
    if face >= vertex_indices.len() / 3 || face >= texcoord_indices.len() / 3 {
        return None;
    }
    let base: usize = 3 * face;
    let v0: u64 = 3 * (vertex_indices[base] as u64);
    let v1: u64 = 3 * (vertex_indices[base + 1] as u64);
    let v2: u64 = 3 * (vertex_indices[base + 2] as u64);
    let t0: u64 = 2 * (texcoord_indices[base] as u64);
    let t1: u64 = 2 * (texcoord_indices[base + 1] as u64);
    let t2: u64 = 2 * (texcoord_indices[base + 2] as u64);
    if v0 + 3 > positions_len as u64 || v1 + 3 > positions_len as u64 || v2 + 3 > positions_len
        as u64 {
        return None;
    }
    if t0 + 2 > texcoords_len as u64 || t1 + 2 > texcoords_len as u64 || t2 + 2 > texcoords_len
        as u64 {
        return None;
    }
    Some(
        FaceSlots {
            p0: v0 as usize,
            p1: v1 as usize,
            p2: v2 as usize,
            t0: t0 as usize,
            t1: t1 as usize,
            t2: t2 as usize,
        },
    )
}

/// Checks the whole mesh up front: every face the index array describes
/// resolves in bounds.  The face count is the number of whole index
/// triples, as the loader consumes them.
pub fn validate_mesh(
    vertex_indices: &Vec<u32>,
    texcoord_indices: &Vec<u32>,
    positions_len: usize,
    texcoords_len: usize,
) -> (ok: bool)
    ensures
        ok <==> forall|f: int|
            0 <= f < vertex_indices@.len() / 3 ==> face_in_bounds(
                f,
                vertex_indices@,
                texcoord_indices@,
                positions_len as int,
                texcoords_len as int,
            ),
{
    let face_count: usize = vertex_indices.len() / 3;
    let mut face: usize = 0;
    while face < face_count
        invariant
            face_count == vertex_indices@.len() / 3,
            face <= face_count,
            forall|f: int|
                0 <= f < face ==> face_in_bounds(
                    f,
                    vertex_indices@,
                    texcoord_indices@,
                    positions_len as int,
                    texcoords_len as int,
                ),
        decreases face_count - face,
    {
        let slots = face_slots(
            face,
            vertex_indices,
            texcoord_indices,
            positions_len,
            texcoords_len,
        );
        if slots.is_none() {
            return false;
        }
        face = face + 1;
    }
    true
}

} // verus!
