[package]
name = "nes"
version = "0.1.0"
edition = "2021"
publish = false

[dependencies]
env_logger = "0.9"
wgpu = "0.12"
winit = "0.26"
