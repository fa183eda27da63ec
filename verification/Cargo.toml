[package]
name = "terrain_tiles"
version = "0.1.0"
edition = "2021"
publish = false

[dependencies]
actix-cors = "0.6"
actix-files = "0.6"
actix-web = "4"
base64 = "0.13"
env_logger = "0.10"
flate2 = "1"
image = { version = "0.24", default-features = false, features = ["png"] }
proj = "0.27"
serde = { version = "1", features = ["derive"] }
serde_json = "1"
