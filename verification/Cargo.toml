[package]
name = "lander"
version = "0.1.0"
edition = "2021"
publish = false

[dependencies]
bit-vec = "*"
bincode = "1"
serde = { version = "1", features = ["derive"] }
