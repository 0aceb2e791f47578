[package]
name = "bevy_dog"
version = "0.1.0"
edition = "2021"
publish = false

[dependencies]
bevy = { version = "0.16", default-features = false, features = ["std", "async_executor", "bevy_asset", "bevy_color", "bevy_core_pipeline", "bevy_log", "bevy_pbr", "bevy_render", "bevy_window"] }
bytemuck = "1"
image = { version = "0.25", default-features = false, features = ["png"] }
