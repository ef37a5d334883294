//! The sizes of the tiled renderer's GPU buffers, and the CPU-side gathering
//! of every model's geometry into one buffer.
use vstd::prelude::*;
use crate::sizing::{ceil_div, lemma_ceil_div_is_least_cover, lemma_ceil_div_le};
use crate::custom_pipeline::renderer::FrameDispatch;
use crate::custom_pipeline::util::WORKGROUP_SIZE;

verus! {

/// Bytes of one fragment record (depth, uv, normal, world position, texture
/// index and padding: twelve 4-byte words).
pub const FRAGMENT_BYTES: u64 = 48;

/// Bytes of one projected vertex (sixteen 4-byte words).
pub const PROJECTED_VERTEX_BYTES: usize = 64;

/// Bytes of one output pixel.
pub const PIXEL_BYTES: u64 = 4;

/// Bytes of one tile record (four 4-byte words).
pub const TILE_BYTES: u64 = 16;

/// Bytes of one triangle-list entry.
pub const TRIANGLE_ENTRY_BYTES: u64 = 4;

/// Bytes of one triangle metadata record (bounds, start tile, tile range).
pub const TRIANGLE_META_BYTES: u64 = 32;

/// Bytes of one partial sum of the tile scan.
pub const PARTIAL_SUM_BYTES: u64 = 4;

/// Triangles that each tile's list has room for.
pub const MAX_TRIANGLES_PER_TILE: u64 = 128;

/// The sizes of the tiled renderer's screen- and geometry-dependent buffers.
#[derive(Clone, Copy, Debug, PartialEq, Eq)]
pub struct BufferSizes {
    /// One fragment per pixel at most.
    pub max_fragments: u64,
    /// Screen tiles.
    pub num_tiles: u64,
    pub projected_bytes: u64,
    pub fragment_bytes: u64,
    pub output_bytes: u64,
    pub tile_bytes: u64,
    pub triangle_list_bytes: u64,
    pub partial_sums_bytes: u64,
    pub triangle_meta_bytes: u64,
}

/// The buffer sizes for a `width` by `height` screen cut into `tile_size`
/// tiles, drawing `vertex_count` vertices.
pub fn buffer_sizes(width: u32, height: u32, tile_size: u32, vertex_count: usize) -> (s:
    BufferSizes)
    requires
        tile_size >= 1,
        width + tile_size - 1 <= u32::MAX,
        height + tile_size - 1 <= u32::MAX,
        width * height <= u32::MAX,
        vertex_count * PROJECTED_VERTEX_BYTES <= usize::MAX,
    ensures
        s.max_fragments == width * height,
        s.num_tiles == ceil_div(width as int, tile_size as int) * ceil_div(
            height as int,
            tile_size as int,
        ),
        s.projected_bytes == vertex_count * PROJECTED_VERTEX_BYTES,
        s.fragment_bytes == s.max_fragments * FRAGMENT_BYTES,
        s.output_bytes == s.max_fragments * PIXEL_BYTES,
        s.tile_bytes == s.num_tiles * TILE_BYTES,
        s.triangle_list_bytes == s.num_tiles * MAX_TRIANGLES_PER_TILE * TRIANGLE_ENTRY_BYTES,
        s.partial_sums_bytes == s.num_tiles * PARTIAL_SUM_BYTES,
        s.triangle_meta_bytes == s.num_tiles * MAX_TRIANGLES_PER_TILE * TRIANGLE_META_BYTES,
{
    proof {
        lemma_ceil_div_le(width as int, tile_size as int);
        lemma_ceil_div_le(height as int, tile_size as int);
        lemma_ceil_div_is_least_cover(width as int, tile_size as int);
        lemma_ceil_div_is_least_cover(height as int, tile_size as int);
    }
    let max_fragments: u64 = (width * height) as u64;
    let num_tiles_x: u32 = (width + (tile_size - 1)) / tile_size;
    let num_tiles_y: u32 = (height + (tile_size - 1)) / tile_size;
    assert(num_tiles_x * num_tiles_y <= width * height) by (nonlinear_arith)
        requires
            0 <= num_tiles_x <= width,
            0 <= num_tiles_y <= height,
    ;
    let num_tiles: u64 = (num_tiles_x * num_tiles_y) as u64;
    assert(num_tiles * 128 * 32 <= 0xFFFF_FFFFu64 * 128 * 32) by (nonlinear_arith)
        requires
            num_tiles <= 0xFFFF_FFFFu64,
    ;
    assert(max_fragments * 48 <= 0xFFFF_FFFFu64 * 48) by (nonlinear_arith)
        requires
            max_fragments <= 0xFFFF_FFFFu64,
    ;
    BufferSizes {
        max_fragments,
        num_tiles,
        projected_bytes: (vertex_count * PROJECTED_VERTEX_BYTES) as u64,
        fragment_bytes: max_fragments * FRAGMENT_BYTES,
        output_bytes: max_fragments * PIXEL_BYTES,
        tile_bytes: num_tiles * TILE_BYTES,
        triangle_list_bytes: num_tiles * MAX_TRIANGLES_PER_TILE * TRIANGLE_ENTRY_BYTES,
        partial_sums_bytes: num_tiles * PARTIAL_SUM_BYTES,
        triangle_meta_bytes: num_tiles * MAX_TRIANGLES_PER_TILE * TRIANGLE_META_BYTES,
    }
}

/// The buffers are sized for the frames that are dispatched on the same
/// screen: one tile record, one scan sum and one triangle list per dispatched
/// tile, and one fragment and one output pixel per pixel thread.
pub proof fn lemma_buffers_fit_frame(
    width: u32,
    height: u32,
    tile_size: u32,
    s: BufferSizes,
    d: FrameDispatch,
)
    requires
        tile_size >= 1,
        s.max_fragments == width * height,
        s.num_tiles == ceil_div(width as int, tile_size as int) * ceil_div(
            height as int,
            tile_size as int,
        ),
        s.tile_bytes == s.num_tiles * TILE_BYTES,
        s.partial_sums_bytes == s.num_tiles * PARTIAL_SUM_BYTES,
        s.triangle_list_bytes == s.num_tiles * MAX_TRIANGLES_PER_TILE * TRIANGLE_ENTRY_BYTES,
        s.fragment_bytes == s.max_fragments * FRAGMENT_BYTES,
        s.output_bytes == s.max_fragments * PIXEL_BYTES,
        d.num_tiles_x == ceil_div(width as int, tile_size as int),
        d.num_tiles_y == ceil_div(height as int, tile_size as int),
        d.total_pixel_dispatch == ceil_div(width * height, WORKGROUP_SIZE as int),
    ensures
        s.num_tiles == d.num_tiles_x * d.num_tiles_y,
        s.tile_bytes == d.num_tiles_x * d.num_tiles_y * TILE_BYTES,
        s.partial_sums_bytes == d.num_tiles_x * d.num_tiles_y * PARTIAL_SUM_BYTES,
        s.triangle_list_bytes == d.num_tiles_x * d.num_tiles_y * MAX_TRIANGLES_PER_TILE
            * TRIANGLE_ENTRY_BYTES,
        s.max_fragments <= d.total_pixel_dispatch * WORKGROUP_SIZE,
        s.fragment_bytes == s.max_fragments * FRAGMENT_BYTES,
        s.output_bytes == s.max_fragments * PIXEL_BYTES,
{
    assert(width * height >= 0) by (nonlinear_arith);
    lemma_ceil_div_is_least_cover(width * height, WORKGROUP_SIZE as int);
}

/// The parts, one after the other.
pub open spec fn concat_parts<T>(parts: Seq<Vec<T>>) -> Seq<T>
    decreases parts.len(),
{
    if parts.len() == 0 {
        Seq::empty()
    } else {
        concat_parts(parts.drop_last()) + parts.last()@
    }
}

/// Appends the geometry of every model, in order, into one list (the vertex
/// and index lists of the shared GPU buffers).
pub fn concat_models<T: Copy>(parts: &Vec<Vec<T>>) -> (all: Vec<T>)
    ensures
        all@ == concat_parts(parts@),
{
    let mut out: Vec<T> = Vec::new();
    let n = parts.len();
    for k in 0..n
        invariant
            n == parts@.len(),
            out@ == concat_parts(parts@.take(k as int)),
    {
        proof {
            assert(parts@.take(k + 1).drop_last() =~= parts@.take(k as int));
            assert(parts@.take(k + 1).last() == parts@[k as int]);
        }
        let part = &parts[k];
        let m = part.len();
        let ghost before = out@;
        for j in 0..m
            invariant
                m == part@.len(),
                out@ =~= before + part@.take(j as int),
        {
            out.push(part[j]);
            assert(part@.take(j + 1) =~= part@.take(j as int).push(part@[j as int]));
        }
        assert(part@.take(m as int) =~= part@);
    }
    assert(parts@.take(n as int) =~= parts@);
    out
}

} // verus!
