pub mod util;
pub mod gpu_buffers;
pub mod binning_pass;
