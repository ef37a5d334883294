//! Dispatch arithmetic and plain GPU records of the tiled compute pipeline.
use vstd::prelude::*;
use crate::sizing::{ceil_div, lemma_ceil_div_is_least_cover};

verus! {

/// Threads per compute workgroup.
pub const WORKGROUP_SIZE: u32 = 256;

/// Number of workgroups of `WORKGROUP_SIZE` threads needed to give every one of
/// `len` items a thread of its own.
pub fn dispatch_size(len: u32) -> (groups: u32)
    requires
        len + WORKGROUP_SIZE - 1 <= u32::MAX,
    ensures
        groups == ceil_div(len as int, WORKGROUP_SIZE as int),
        groups * WORKGROUP_SIZE >= len,
        groups == 0 || (groups - 1) * WORKGROUP_SIZE < len,
{
    proof {
        lemma_ceil_div_is_least_cover(len as int, WORKGROUP_SIZE as int);
    }
    let subgroup_size: u32 = WORKGROUP_SIZE;
    assert(subgroup_size == 256);
    (len + (subgroup_size - 1)) / subgroup_size
}

/// An index into the vertex buffer, as the GPU reads it.
#[derive(Clone, Copy, Debug, PartialEq, Eq)]
pub struct Index(pub u32);

/// The plain values of a sequence of indices.
pub open spec fn index_values(s: Seq<Index>) -> Seq<u32> {
    s.map_values(|x: Index| x.0)
}

/// Where one texture's texels sit in the texel buffer.
#[derive(Clone, Copy, Debug, PartialEq, Eq)]
pub struct TextureInfo {
    pub offset: u32,
    pub width: u32,
    pub height: u32,
    pub _padding: u32,
}

impl Default for TextureInfo {
    /// No texture: the offset is the largest `u32`, which names no texel, and
    /// the size is zero.
    fn default() -> (info: Self)
        ensures
            info.offset == u32::MAX,
            info.width == 0,
            info.height == 0,
            info._padding == 0,
    {
        TextureInfo { offset: u32::MAX, width: 0, height: 0, _padding: 0 }
    }
}

} // verus!
