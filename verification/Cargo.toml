[package]
name = "charge_control"
version = "0.1.0"
edition = "2021"
publish = false

[dependencies]
serde = { version = "*", features = ["derive"] }
toml = "*"
thiserror = "*"
color-eyre = "*"
log = "*"
env_logger = "*"
