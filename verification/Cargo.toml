[package]
name = "battle_core"
version = "0.1.0"
edition = "2021"
publish = false

[dependencies]
rand = "=0.8.8"
bevy = { version = "=0.17.3", default-features = false, features = ["std", "multi_threaded", "bevy_log", "bevy_sprite", "bevy_sprite_render", "bevy_text", "default_font", "png", "bevy_state", "bevy_window"] }
