[package]
name = "vkinit"
version = "0.1.0"
edition = "2021"
publish = false

[dependencies]
anyhow = "=1.0.104"
log = "=0.4.35"
pretty_env_logger = "=0.5.0"
thiserror = "=1.0.69"
vulkanalia = { version = "0.35", features = ["libloading", "provisional", "window"] }
winit = "=0.29.15"
