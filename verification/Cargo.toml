[package]
name = "frame_engine"
version = "0.1.0"
edition = "2021"
publish = false

[dependencies]
bytemuck = { version = "=1.25.2", features = ["derive"] }
cgmath = "=0.18.0"
pollster = "=1.0.1"
wgpu = "=28.0.0"
winit = "=0.30.13"
