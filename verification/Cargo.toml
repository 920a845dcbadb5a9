[package]
name = "render_graph"
version = "0.1.0"
edition = "2021"
publish = false

[dependencies]
wgpu = { version = "0.19", default-features = false, features = ["wgsl"] }
wgpu-types = "0.19"
instant = "0.1"
bytemuck = { version = "1", features = ["derive"] }
