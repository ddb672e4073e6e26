[package]
name = "rust_backend"
version = "0.1.0"
edition = "2021"
publish = false

[dependencies]
csv = "1"
serde = { version = "1", features = ["derive"] }
serde_json = "1"
actix-web = { version = "4", default-features = false, features = ["macros"] }
actix-cors = "0.7"
env_logger = { version = "0.11", default-features = false }
