pub mod sizing;
pub mod text;
pub mod model;
pub mod camera;
pub mod effect;
pub mod custom_pipeline;
pub mod gpu;
pub mod window;
pub mod performance;
pub mod scene;
