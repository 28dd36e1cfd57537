[package]
name = "vk_bootstrap"
version = "0.1.0"
edition = "2021"
publish = false

[dependencies]
ash = "0.37"
bytemuck = "1"
pretty_env_logger = "0.5"
raw-window-handle = "0.5"
tracing = "0.1"
winit = "0.28"
