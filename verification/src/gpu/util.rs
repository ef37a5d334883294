//! Dispatch arithmetic and plain GPU records of the binned compute pipeline.
use vstd::prelude::*;
use crate::sizing::{ceil_div, lemma_ceil_div_is_least_cover};
use crate::model::{MeshSource, fits_u32_indexing, merged_indices};
use crate::gpu::gpu_buffers::merge_index_lists;

verus! {

/// Threads per compute workgroup.
pub const WORKGROUP_SIZE: u32 = 256;

/// Number of workgroups of `WORKGROUP_SIZE` threads needed to give every one of
/// `len` items a thread of its own.
pub fn dispatch_size(len: u32) -> (groups: u32)
    requires
        len + WORKGROUP_SIZE - 1 <= u32::MAX,
    ensures
        groups == ceil_div(len as int, WORKGROUP_SIZE as int),
        groups * WORKGROUP_SIZE >= len,
        groups == 0 || (groups - 1) * WORKGROUP_SIZE < len,
{
    proof {
        lemma_ceil_div_is_least_cover(len as int, WORKGROUP_SIZE as int);
    }
    let subgroup_size: u32 = WORKGROUP_SIZE;
    assert(subgroup_size == 256);
    (len + (subgroup_size - 1)) / subgroup_size
}

/// An index into the vertex buffer, as the GPU reads it.
#[derive(Clone, Copy, Debug, PartialEq, Eq)]
pub struct Index(pub u32);

/// The plain values of a sequence of indices.
pub open spec fn index_values(s: Seq<Index>) -> Seq<u32> {
    s.map_values(|x: Index| x.0)
}

/// Where one texture's texels sit in the packed texel buffer.
#[derive(Clone, Copy, Debug, PartialEq, Eq)]
pub struct TextureInfo {
    pub offset: u32,
    pub width: u32,
    pub height: u32,
    pub _padding: u32,
}

/// The index buffer of an OBJ file's meshes: every mesh's indices shifted past
/// the vertices of the meshes before it (the index part of reading an OBJ
/// model into one vertex and one index list).
pub fn merge_obj_indices(meshes: &Vec<MeshSource>) -> (indices: Vec<Index>)
    requires
        fits_u32_indexing(meshes@),
    ensures
        index_values(indices@) == merged_indices(meshes@),
{
    let flat = merge_index_lists(meshes);
    let mut out: Vec<Index> = Vec::new();
    let n = flat.len();
    for j in 0..n
        invariant
            n == flat@.len(),
            index_values(out@) =~= flat@.take(j as int),
    {
        out.push(Index(flat[j]));
        assert(flat@.take(j + 1) =~= flat@.take(j as int).push(flat@[j as int]));
    }
    assert(flat@.take(n as int) =~= flat@);
    out
}

} // verus!
