//! The workgroup counts of the binning pass: the triangle-counting stage runs
//! one thread per triangle on a near-square grid of 16 by 16 workgroups; the
//! two tile-scan stages and the triangle-storing stage run on the tile grid, in
//! workgroups of 32 by 32 tiles.
use vstd::prelude::*;
use crate::sizing::{
    ceil_div, square_grid, square_grid_spec, lemma_ceil_div_is_least_cover, lemma_ceil_div_le,
};

verus! {

/// Threads per triangle workgroup (16 by 16).
pub const TRIANGLE_WORKGROUP_THREADS: u32 = 256;

/// Tiles per side of a scan workgroup.
pub const SCAN_WORKGROUP_SIDE: u32 = 32;

/// The workgroup grids of the binning pass.
#[derive(Clone, Copy, Debug, PartialEq, Eq)]
pub struct BinningDispatch {
    /// Grid of the counting stage.
    pub triangle_x: u32,
    pub triangle_y: u32,
    /// Grid of the two scan stages and the storing stage.
    pub scan_x: u32,
    pub scan_y: u32,
}

/// The binning pass's workgroup grids for `total_triangles` triangles on a
/// `width` by `height` screen of `tile_size` tiles.
pub fn binning_dispatch(total_triangles: u32, width: u32, height: u32, tile_size: u32) -> (d:
    BinningDispatch)
    requires
        tile_size >= 1,
        width + tile_size - 1 <= u32::MAX,
        height + tile_size - 1 <= u32::MAX,
        ceil_div(width as int, tile_size as int) + SCAN_WORKGROUP_SIDE - 1 <= u32::MAX,
        ceil_div(height as int, tile_size as int) + SCAN_WORKGROUP_SIDE - 1 <= u32::MAX,
    ensures
        square_grid_spec(
            ceil_div(total_triangles as int, TRIANGLE_WORKGROUP_THREADS as int),
            d.triangle_x as int,
            d.triangle_y as int,
        ),
        d.scan_x == ceil_div(ceil_div(width as int, tile_size as int), SCAN_WORKGROUP_SIDE as int),
        d.scan_y == ceil_div(
            ceil_div(height as int, tile_size as int),
            SCAN_WORKGROUP_SIDE as int,
        ),
{
    proof {
        lemma_ceil_div_le(total_triangles as int, TRIANGLE_WORKGROUP_THREADS as int);
        lemma_ceil_div_is_least_cover(total_triangles as int, TRIANGLE_WORKGROUP_THREADS as int);
    }
    let groups: u32 = ((total_triangles as u64 + 255) / 256) as u32;
    let (triangle_x, triangle_y) = square_grid(groups);
    let num_tiles_x: u32 = (width + (tile_size - 1)) / tile_size;
    let num_tiles_y: u32 = (height + (tile_size - 1)) / tile_size;
    let scan_x: u32 = (num_tiles_x + 31) / 32;
    let scan_y: u32 = (num_tiles_y + 31) / 32;
    BinningDispatch { triangle_x, triangle_y, scan_x, scan_y }
}

} // verus!
