[package]
name = "grid_viewport"
version = "0.1.0"
edition = "2021"
publish = false

[dependencies]
bevy = { version = "=0.5.0", default-features = false, features = ["render"] }
tracing = "=0.1.25"
tracing-attributes = "=0.1.15"
