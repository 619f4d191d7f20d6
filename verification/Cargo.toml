[package]
name = "scriptisto"
version = "0.1.0"
edition = "2021"
publish = false

[dependencies]
serde_yaml = "*"
clap = { version = "*", features = ["derive"] }
log = "*"
env_logger = "*"
