[package]
name = "shell_provider"
version = "0.1.0"
edition = "2021"
publish = false

[dependencies]
wascc-codec = "=0.6.0"
rmp = "=0.8.9"
log = "=0.4.34"
env_logger = "=0.7.1"

[dev-dependencies]
serde = "=1.0.229"
