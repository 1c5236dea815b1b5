[package]
name = "frame_animation"
version = "0.1.0"
edition = "2021"
publish = false

[dependencies]
bevy = { version = "0.14", default-features = false }
image = { version = "0.25", default-features = false, features = ["gif"] }
