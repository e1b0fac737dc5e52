[package]
name = "pacman_core"
version = "0.1.0"
edition = "2021"
publish = false

[dependencies]
fastrand = "2"
bevy = { version = "0.12", default-features = false }
strum = { version = "0.25", features = ["derive"] }
