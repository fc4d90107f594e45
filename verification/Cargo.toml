[package]
name = "sifu_render"
version = "0.1.0"
edition = "2021"
publish = false

[dependencies]
bytemuck = { version = "1", features = ["derive"] }
cgmath = "0.18"
image = { version = "0.25", default-features = false, features = ["png"] }
pollster = "0.4"
proc-macro2 = "1"
quote = "1"
syn = { version = "2", features = ["full"] }
wgpu = "26"
winit = "0.30"
