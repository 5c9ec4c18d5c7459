[package]
name = "recoilly"
version = "0.1.0"
edition = "2021"
publish = false

[dependencies]
base64 = "=0.22.1"
rand = "=0.9.5"
rdev = "0.5"
serde = { version = "1", features = ["derive"] }
