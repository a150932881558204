[package]
name = "wgpu-3dgs-viewer"
version = "0.7.0"
edition = "2021"
publish = false

[dependencies]
bytemuck = { version = "1", features = ["derive"] }
glam = { version = "0.32", features = ["bytemuck"] }
log = "0.4"
thiserror = "2"
wesl = "0.3"
wgpu = "29"
