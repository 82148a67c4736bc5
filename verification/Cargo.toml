[package]
name = "darkest"
version = "0.1.0"
edition = "2021"
publish = false

[dependencies]
bevy = { version = "0.8", default-features = false, features = ["bevy_asset", "bevy_scene", "bevy_winit", "render", "png", "x11"] }
bevy_rapier3d = { version = "0.16", default-features = false, features = ["dim3"] }
smooth-bevy-cameras = "0.5"
bevy_editor_pls = "0.1"
bevy_asset_loader = "0.12"
iyes_progress = "0.5"
derive_more = "0.99"
serde = { version = "1", features = ["derive"] }
