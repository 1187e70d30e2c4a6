[package]
name = "clockwork"
version = "0.1.0"
edition = "2021"
publish = false

[dependencies]
anyhow = "1"
bytemuck = "1"
glam = "0.24"
image = "0.24"
num = "0.4"
pollster = "0.3"
raw-window-handle = "0.5"
serde = { version = "1", features = ["derive"] }
serde_json = "1"
wgpu = "0.16"
winit = "0.28"
