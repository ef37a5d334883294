use compute_renderer::custom_pipeline::gpu_buffers::{buffer_sizes, concat_models, BufferSizes};
use compute_renderer::custom_pipeline::renderer::{frame_dispatch, FrameDispatch};
use compute_renderer::custom_pipeline::util::{dispatch_size, TextureInfo, WORKGROUP_SIZE};
use compute_renderer::gpu::binning_pass::{binning_dispatch, BinningDispatch};
use compute_renderer::gpu::util::dispatch_size as binned_dispatch_size;
use compute_renderer::scene::triangle_grid;
use compute_renderer::sizing::{ceil_sqrt, square_grid};

#[test]
fn dispatch_size_rounds_up_to_whole_workgroups() {
    assert_eq!(WORKGROUP_SIZE, 256);
    assert_eq!(dispatch_size(0), 0);
    assert_eq!(dispatch_size(1), 1);
    assert_eq!(dispatch_size(255), 1);
    assert_eq!(dispatch_size(256), 1);
    assert_eq!(dispatch_size(257), 2);
    assert_eq!(dispatch_size(786_432), 3072);
}

#[test]
fn dispatch_size_at_the_largest_accepted_length() {
    let len = u32::MAX - 255;
    assert_eq!(dispatch_size(len), 16_777_215);
    assert_eq!(binned_dispatch_size(len), 16_777_215);
    assert!(dispatch_size(len) as u64 * 256 >= len as u64);
    assert_eq!(dispatch_size(u32::MAX - 256), 16_777_215);
    assert_eq!(dispatch_size(u32::MAX - 511), 16_777_214);
}

#[test]
fn binned_dispatch_size_matches_tiled_one() {
    for len in [0u32, 1, 255, 256, 257, 1000, 65_536, 1_000_000] {
        assert_eq!(binned_dispatch_size(len), dispatch_size(len));
    }
    assert_eq!(binned_dispatch_size(513), 3);
}

#[test]
fn ceil_sqrt_values() {
    assert_eq!(ceil_sqrt(0), 0);
    assert_eq!(ceil_sqrt(1), 1);
    assert_eq!(ceil_sqrt(2), 2);
    assert_eq!(ceil_sqrt(9), 3);
    assert_eq!(ceil_sqrt(10), 4);
    assert_eq!(ceil_sqrt(16), 4);
    assert_eq!(ceil_sqrt(17), 5);
    assert_eq!(ceil_sqrt(u32::MAX), 65_536);
}

#[test]
fn square_grid_covers_items() {
    assert_eq!(square_grid(0), (0, 0));
    assert_eq!(square_grid(1), (1, 1));
    assert_eq!(square_grid(10), (4, 3));
    assert_eq!(square_grid(16), (4, 4));
    assert_eq!(square_grid(17), (5, 4));
    assert_eq!(square_grid(u32::MAX), (65_536, 65_536));
    for n in 0u32..2000 {
        let (gx, gy) = square_grid(n);
        assert!(gx as u64 * gy as u64 >= n as u64);
        assert!(gy <= gx);
    }
}

#[test]
fn triangle_grid_counts_triangles() {
    assert_eq!(triangle_grid(0), (0, 0));
    assert_eq!(triangle_grid(2), (0, 0));
    assert_eq!(triangle_grid(30), (4, 3));
    assert_eq!(triangle_grid(31), (4, 3));
    assert_eq!(triangle_grid(3 * 17), (5, 4));
}

#[test]
fn frame_dispatch_for_a_1024_by_768_window() {
    let d = frame_dispatch(1024, 768, 16);
    assert_eq!(
        d,
        FrameDispatch {
            num_tiles_x: 64,
            num_tiles_y: 48,
            total_tile_dispatch: 12,
            total_pixel_dispatch: 3072,
        }
    );
}

#[test]
fn frame_dispatch_rounds_partial_tiles_up() {
    let d = frame_dispatch(1000, 1, 16);
    assert_eq!(d.num_tiles_x, 63);
    assert_eq!(d.num_tiles_y, 1);
    assert_eq!(d.total_tile_dispatch, 1);
    assert_eq!(d.total_pixel_dispatch, 4);
    let empty = frame_dispatch(0, 0, 8);
    assert_eq!(empty.num_tiles_x, 0);
    assert_eq!(empty.total_tile_dispatch, 0);
    assert_eq!(empty.total_pixel_dispatch, 0);
}

#[test]
fn buffer_sizes_for_a_1024_by_768_window() {
    let s = buffer_sizes(1024, 768, 16, 100);
    assert_eq!(
        s,
        BufferSizes {
            max_fragments: 786_432,
            num_tiles: 3072,
            projected_bytes: 6400,
            fragment_bytes: 786_432 * 48,
            output_bytes: 786_432 * 4,
            tile_bytes: 3072 * 16,
            triangle_list_bytes: 3072 * 128 * 4,
            partial_sums_bytes: 3072 * 4,
            triangle_meta_bytes: 3072 * 128 * 32,
        }
    );
}

#[test]
fn buffers_fit_the_dispatched_frame() {
    for (w, h, t) in [(1024u32, 768u32, 16u32), (1000, 333, 8), (17, 5, 4), (1, 1, 32)] {
        let s = buffer_sizes(w, h, t, 0);
        let d = frame_dispatch(w, h, t);
        assert_eq!(s.num_tiles, d.num_tiles_x as u64 * d.num_tiles_y as u64);
        assert!(s.max_fragments <= d.total_pixel_dispatch as u64 * 256);
    }
}

#[test]
fn concat_models_keeps_order() {
    let parts: Vec<Vec<u32>> = vec![vec![1, 2], vec![], vec![3], vec![4, 5]];
    assert_eq!(concat_models(&parts), vec![1, 2, 3, 4, 5]);
    let none: Vec<Vec<u32>> = vec![];
    assert_eq!(concat_models(&none), Vec::<u32>::new());
}

#[test]
fn tile_counts_at_the_largest_accepted_widths() {
    let s = buffer_sizes(u32::MAX - 15, 1, 16, 0);
    assert_eq!(s.num_tiles, 268_435_455);
    let d = binning_dispatch(0, u32::MAX - 31, 1, 1);
    assert_eq!((d.scan_x, d.scan_y), (134_217_727, 1));
    let d = binning_dispatch(0, u32::MAX - 31, 1, 32);
    assert_eq!(d.scan_x, 4_194_304);
}

#[test]
fn binning_dispatch_grids() {
    let d = binning_dispatch(1000, 1024, 768, 16);
    assert_eq!(d, BinningDispatch { triangle_x: 2, triangle_y: 2, scan_x: 2, scan_y: 2 });
    let none = binning_dispatch(0, 0, 0, 16);
    assert_eq!(none, BinningDispatch { triangle_x: 0, triangle_y: 0, scan_x: 0, scan_y: 0 });
    let big = binning_dispatch(256 * 10, 4096, 32, 16);
    assert_eq!((big.triangle_x, big.triangle_y), (4, 3));
    assert_eq!((big.scan_x, big.scan_y), (8, 1));
}

#[test]
fn texture_info_default_marks_no_texture() {
    let info = TextureInfo::default();
    assert_eq!(info, TextureInfo { offset: u32::MAX, width: 0, height: 0, _padding: 0 });
}
