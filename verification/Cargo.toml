[package]
name = "wilayah"
version = "0.1.0"
edition = "2021"
publish = false

[dependencies]
rusqlite = "*"
actix-web = "*"
actix-rt = "*"
env_logger = "*"
log = "*"
serde = { version = "*", features = ["derive"] }
serde_json = "*"
thiserror = "*"
