[package]
name = "hotaru"
version = "0.1.0"
edition = "2021"
publish = false

[dependencies]
anyhow = "*"
async-io = "*"
clap = { version = "*", features = ["derive"] }
env_logger = "*"
log = "*"
serde = { version = "*", features = ["derive"] }
serde_json = "*"
thiserror = "*"
zbus = "*"
