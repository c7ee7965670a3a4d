[package]
name = "devicectl"
version = "0.1.0"
edition = "2021"
publish = false

[dependencies]
wifi-ctrl = "*"
tokio = { version = "*", features = ["macros", "rt-multi-thread"] }
log = "*"
env_logger = "*"
