[package]
name = "edgetpu_cdi"
version = "0.1.0"
edition = "2021"
publish = false

[dependencies]
serde = { version = "=1.0.229", features = ["derive"] }
serde_json = "=1.0.151"
log = "=0.4.34"
env_logger = "=0.11.11"
nix = { version = "=0.31.3", features = ["user"] }
zip = "=8.6.0"
