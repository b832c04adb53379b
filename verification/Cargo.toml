[package]
name = "anchor_kit"
version = "0.1.0"
edition = "2021"
publish = false

[dependencies]
uuid = { version = "1", features = ["v4"] }
bytemuck = { version = "1", features = ["derive"] }
wgpu = "*"
glyphon = "*"
image = "*"
