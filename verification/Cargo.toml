[package]
name = "rust_backend"
version = "0.1.0"
edition = "2021"
publish = false

[dependencies]
serde_json = "*"
actix-web = "*"
actix-cors = "*"
log = "*"
env_logger = "*"
dotenv = "*"
