[package]
name = "wgpu_rendering"
version = "0.1.0"
edition = "2021"
publish = false

[dependencies]
wgpu = { version = "=22.1.0", default-features = false, features = ["wgsl"] }
pollster = "=0.3.0"
env_logger = { version = "=0.11.11", default-features = false }
bytemuck = { version = "=1.25.2", features = ["derive"] }
rand = { version = "=0.9.5", features = ["small_rng"] }
rustc-hash = "*"
take_mut = "=0.2.2"
glam = "=0.29.3"
