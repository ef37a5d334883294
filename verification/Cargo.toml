[package]
name = "compute_renderer"
version = "0.1.0"
edition = "2021"
publish = false

[dependencies]
glam = "0.29"
bytemuck = { version = "1", features = ["derive"] }
tobj = "4"
clap = { version = "4", features = ["derive"] }
pollster = "0.4"
futures-intrusive = "0.5"
