[package]
name = "shortlink"
version = "0.1.0"
edition = "2021"
publish = false

[dependencies]
rand = "0.8"
url = "2"
redis = "0.23"
actix-web = "4"
actix-rt = "2"
serde = { version = "1", features = ["derive"] }
env_logger = "0.10"
log = "0.4"
