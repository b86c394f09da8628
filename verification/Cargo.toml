[package]
name = "preview_generator"
version = "0.1.0"
edition = "2021"
publish = false

[dependencies]
image = { version = "=0.25.10", default-features = false, features = ["png", "jpeg", "bmp"] }
serde = { version = "=1.0.229", features = ["derive"] }
serde_json = "=1.0.151"
