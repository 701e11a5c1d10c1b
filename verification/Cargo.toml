[package]
name = "stick_aim"
version = "0.1.0"
edition = "2021"
publish = false

[dependencies]
config = "*"
serde = { version = "*", features = ["derive"] }
