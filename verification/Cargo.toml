[package]
name = "sofle_overlay"
version = "0.1.0"
edition = "2021"
publish = false

[dependencies]
serde = { version = "1", features = ["derive"] }
hidapi = "2"
