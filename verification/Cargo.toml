[package]
name = "usbfly"
version = "0.1.0"
edition = "2021"
publish = false

[dependencies]
rand = "0.8"
nusb = "0.1"
rusb = "0.9"
anyhow = "1"
log = "0.4"
pretty_env_logger = "0.5"
tokio = { version = "1", features = ["rt", "time", "macros"] }
futures-channel = "0.3"
futures-util = "0.3"
serde = { version = "1", features = ["derive"] }
serde_json = "1"
