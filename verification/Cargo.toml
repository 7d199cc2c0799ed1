[package]
name = "darc_renderer"
version = "0.1.0"
edition = "2021"
publish = false

[dependencies]
bevy = { version = "0.10", default-features = false, features = ["bevy_winit", "bevy_render", "x11"] }
bevy_ecs = "0.10"
wgpu = "0.15"
winit = "0.28"
futures = "0.3"
nalgebra = "0.32"
bytemuck = { version = "1", features = ["derive"] }
log = "0.4"
env_logger = "0.10"
