[package]
name = "countdown"
version = "0.1.0"
edition = "2021"
publish = false

[dependencies]
bevy = { version = "0.12", default-features = false }
bevy_tweening = { version = "0.9", default-features = false }
