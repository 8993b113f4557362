[package]
name = "lightmon"
version = "0.1.0"
edition = "2021"
publish = false

[dependencies]
toml = "0.8"
sysinfo = { version = "0.30", default-features = false }
tokio = { version = "1", features = ["time"] }
log = "0.4"
env_logger = "0.11"
