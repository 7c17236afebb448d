[package]
name = "raytracer"
version = "0.1.0"
edition = "2021"
publish = false

[dependencies]
wgpu = "0.20"
winit = "0.30"
pollster = "0.3"
env_logger = "0.11"
bytemuck = "1"
image = { version = "0.24", default-features = false, features = ["png"] }
