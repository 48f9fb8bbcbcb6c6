[package]
name = "character_behavior"
version = "0.1.0"
edition = "2021"
publish = false

[dependencies]
bevy = { version = "0.13", default-features = false }
serde = { version = "1", features = ["derive"] }
