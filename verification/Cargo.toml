[package]
name = "hide_utils"
version = "0.1.0"
edition = "2021"
publish = false

[dependencies]
anyhow = "*"
clap = { version = "*", features = ["derive"] }
duct = "*"
env_logger = "*"
log = "*"
promptly = "*"
