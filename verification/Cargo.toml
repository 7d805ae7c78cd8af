[package]
name = "game_engine_lib"
version = "0.1.0"
edition = "2021"
publish = false

[dependencies]
glam = "*"
uuid = { version = "*", features = ["v4"] }
rapier3d = "*"
bytemuck = "*"
anyhow = "*"
log = "*"
env_logger = "*"
winit = "*"
three-d = { version = "*", default-features = false }
gltf = "*"
image = { version = "*", default-features = false, features = ["png", "jpeg"] }
cgmath = "*"
