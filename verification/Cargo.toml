[package]
name = "yas_lock"
version = "0.1.0"
edition = "2021"
publish = false

[dependencies]
image = "*"
clap = { version = "*", features = ["derive"] }
log = "*"
env_logger = "*"
serde = { version = "*", features = ["derive"] }
serde_json = "*"
