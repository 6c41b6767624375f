[package]
name = "pong_settings"
version = "0.1.0"
edition = "2021"
publish = false

[dependencies]
bevy = { version = "=0.18.1", default-features = false, features = ["std", "bevy_log", "bevy_ui_render", "bevy_text", "default_font", "keyboard", "mouse"] }
web-sys = { version = "=0.3.107", features = ["Window", "Storage"] }
