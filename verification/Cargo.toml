[package]
name = "video_admin"
version = "0.1.0"
edition = "2021"
publish = false

[dependencies]
actix-web = "3"
actix-session = "0.4"
actix-rt = "1"
actix-files = "0.5"
mysql = "*"
serde = { version = "1", features = ["derive"] }
serde_derive = "1"
serde_json = "1"
lazy_static = "1"
env_logger = "*"
