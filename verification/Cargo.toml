[package]
name = "voxel_renderer"
version = "0.1.0"
edition = "2021"
publish = false

[dependencies]
anyhow = "1"
bytemuck = { version = "1", features = ["derive"] }
env_logger = "0.11"
glam = "0.30"
pollster = "0.4"
wgpu = "28"
winit = "0.30"
