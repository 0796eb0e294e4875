[package]
name = "nephrite"
version = "0.1.0"
edition = "2021"
publish = false

[dependencies]
vulkanalia = { version = "*", features = ["libloading", "window"] }
vulkanalia-sys = "*"
winit = "0.30"
image = { version = "0.25", default-features = false, features = ["png"] }
log = "0.4"
pretty_env_logger = "0.5"
anyhow = "1"
thiserror = "*"
tap = "1"
