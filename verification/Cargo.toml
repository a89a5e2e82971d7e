[package]
name = "frustration"
version = "0.1.0"
edition = "2021"
publish = false

[dependencies]
bevy = { version = "=0.17.3", default-features = false, features = ["std", "bevy_render", "bevy_core_pipeline", "bevy_sprite", "bevy_gizmos", "bevy_winit", "bevy_window", "bevy_state", "bevy_asset", "x11"] }
