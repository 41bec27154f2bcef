[package]
name = "sensoreval"
version = "0.1.0"
edition = "2021"
publish = false

[dependencies]
anyhow = "=1.0.104"
bincode = "=1.3.3"
serde = { version = "=1.0.229", features = ["derive"] }
serde_yaml = "=0.9.34"
ndarray = { version = "=0.15.6", features = ["serde"] }
ndarray-linalg = "0.16"
num-traits = "=0.2.19"
log = "=0.4.35"
env_logger = "=0.10.2"
thiserror = "=1.0.69"
