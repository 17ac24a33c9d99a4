[package]
name = "snake_core"
version = "0.1.0"
edition = "2021"
publish = false

[dependencies]
bevy = { version = "=0.1.3", default-features = false, features = ["bevy_wgpu", "bevy_winit", "png"] }
notify = "=5.0.0-pre.2"
rand = "=0.7.3"
serde = { version = "=1.0.229", features = ["derive"] }
