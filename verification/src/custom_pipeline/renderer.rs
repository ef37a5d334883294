//! The per-frame workgroup counts of the tiled compute renderer.
use vstd::prelude::*;
use crate::sizing::{ceil_div, lemma_ceil_div_is_least_cover, lemma_ceil_div_le};
use crate::custom_pipeline::util::{dispatch_size, WORKGROUP_SIZE};

verus! {

/// How one frame of the tiled renderer is dispatched.
#[derive(Clone, Copy, Debug, PartialEq, Eq)]
pub struct FrameDispatch {
    /// Screen tiles across.
    pub num_tiles_x: u32,
    /// Screen tiles down.
    pub num_tiles_y: u32,
    /// Workgroups for the per-tile passes (one thread per tile).
    pub total_tile_dispatch: u32,
    /// Workgroups for the per-pixel pass (one thread per pixel).
    pub total_pixel_dispatch: u32,
}

/// The workgroup counts of one frame of a `width` by `height` surface cut into
/// `tile_size`-pixel square tiles.
pub fn frame_dispatch(width: u32, height: u32, tile_size: u32) -> (d: FrameDispatch)
    requires
        tile_size >= 1,
        width * height + WORKGROUP_SIZE - 1 <= u32::MAX,
    ensures
        d.num_tiles_x == ceil_div(width as int, tile_size as int),
        d.num_tiles_y == ceil_div(height as int, tile_size as int),
        d.total_tile_dispatch == ceil_div(
            d.num_tiles_x * d.num_tiles_y,
            WORKGROUP_SIZE as int,
        ),
        d.total_pixel_dispatch == ceil_div(width * height, WORKGROUP_SIZE as int),
{
    proof {
        lemma_ceil_div_le(width as int, tile_size as int);
        lemma_ceil_div_le(height as int, tile_size as int);
        lemma_ceil_div_is_least_cover(width as int, tile_size as int);
        lemma_ceil_div_is_least_cover(height as int, tile_size as int);
    }
    let num_tiles_x: u64 = (width as u64 + tile_size as u64 - 1) / tile_size as u64;
    let num_tiles_y: u64 = (height as u64 + tile_size as u64 - 1) / tile_size as u64;
    assert(num_tiles_x * num_tiles_y <= width * height) by (nonlinear_arith)
        requires
            0 <= num_tiles_x <= width,
            0 <= num_tiles_y <= height,
    ;
    let tiles: u32 = (num_tiles_x * num_tiles_y) as u32;
    let total_tile_dispatch = dispatch_size(tiles);
    let total_pixel_dispatch = dispatch_size(width * height);
    FrameDispatch {
        num_tiles_x: num_tiles_x as u32,
        num_tiles_y: num_tiles_y as u32,
        total_tile_dispatch,
        total_pixel_dispatch,
    }
}

/// Every tile gets a thread and every pixel gets a thread.
pub proof fn lemma_frame_dispatch_covers(width: u32, height: u32, tile_size: u32, d: FrameDispatch)
    requires
        tile_size >= 1,
        d.num_tiles_x == ceil_div(width as int, tile_size as int),
        d.num_tiles_y == ceil_div(height as int, tile_size as int),
        d.total_tile_dispatch == ceil_div(d.num_tiles_x * d.num_tiles_y, WORKGROUP_SIZE as int),
        d.total_pixel_dispatch == ceil_div(width * height, WORKGROUP_SIZE as int),
    ensures
        d.num_tiles_x * tile_size >= width,
        d.num_tiles_y * tile_size >= height,
        d.total_tile_dispatch * WORKGROUP_SIZE >= d.num_tiles_x * d.num_tiles_y,
        d.total_pixel_dispatch * WORKGROUP_SIZE >= width * height,
{
    lemma_ceil_div_is_least_cover(width as int, tile_size as int);
    lemma_ceil_div_is_least_cover(height as int, tile_size as int);
    assert(d.num_tiles_x * d.num_tiles_y >= 0) by (nonlinear_arith)
        requires
            d.num_tiles_x >= 0,
            d.num_tiles_y >= 0,
    ;
    assert(width * height >= 0) by (nonlinear_arith);
    lemma_ceil_div_is_least_cover(d.num_tiles_x * d.num_tiles_y, WORKGROUP_SIZE as int);
    lemma_ceil_div_is_least_cover(width * height, WORKGROUP_SIZE as int);
}

} // verus!
