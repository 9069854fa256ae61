[package]
name = "remote_do"
version = "0.1.0"
edition = "2021"
publish = false

[dependencies]
shell-words = "=1.1.1"
anyhow = "=1.0.104"
log = "=0.4.34"
env_logger = "=0.11.11"
tokio = { version = "=1.53.2", features = ["full"] }
tokio-fd = "=0.3.0"
tokio-util = "=0.7.19"
wtransport = { version = "=0.7.2", features = ["dangerous-configuration"] }
