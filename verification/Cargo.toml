[package]
name = "cubefield"
version = "0.1.0"
edition = "2021"
publish = false

[dependencies]
bytemuck = "1"
clap = { version = "4", features = ["derive"] }
pollster = "0.4"
wgpu = "28"
winit = "0.30"
