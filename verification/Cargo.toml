[package]
name = "tamarindo_engine"
version = "0.1.0"
edition = "2021"
publish = false

[dependencies]
image = "0.24"
wgpu = "0.14"
winit = "0.27"
cgmath = "0.18"
bytemuck = { version = "1", features = ["derive"] }
pollster = "0.2"
serde = { version = "1", features = ["derive"] }
serde_yaml = "0.9"
log = "0.4"
env_logger = "0.10"
anyhow = "1"
