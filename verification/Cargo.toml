[package]
name = "moonwalk"
version = "0.1.0"
edition = "2021"
publish = false

[dependencies]
bytemuck = { version = "=1.25.2", features = ["derive"] }
glam = "0.30"
pollster = "0.4"
raw-window-handle = "=0.6.2"
thiserror = "2"
wgpu = "24"
winit = "0.30"
