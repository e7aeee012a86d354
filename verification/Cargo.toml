[package]
name = "gameplay_sandbox"
version = "0.1.0"
edition = "2021"
publish = false

[dependencies]
bevy = { version = "=0.17.3", default-features = false, features = ["std", "async_executor", "bevy_asset", "bevy_color", "bevy_core_pipeline", "bevy_render", "bevy_camera", "bevy_image", "bevy_mesh", "bevy_shader", "bevy_sprite", "bevy_sprite_render", "bevy_state", "bevy_text", "bevy_ui", "bevy_ui_render", "bevy_window", "default_font"] }
rand = "=0.9.5"
rand_chacha = "=0.9.0"
ron = "=0.11.0"
serde = { version = "=1.0.229", features = ["derive"] }
thiserror = "=2.0.21"
