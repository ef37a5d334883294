pub mod util;
pub mod renderer;
pub mod gpu_buffers;
