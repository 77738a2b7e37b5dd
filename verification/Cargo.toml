[package]
name = "fuchsia_api"
version = "0.1.0"
edition = "2021"
publish = false

[dependencies]
image = { version = "=0.24.9", default-features = false, features = ["gif", "jpeg", "png", "webp"] }
webp-animation = "*"
actix-web = "=4.18.1"
actix-multipart = "=0.6.2"
futures = "=0.3.34"
serde = { version = "=1.0.229", features = ["derive"] }
env_logger = "=0.10.2"
