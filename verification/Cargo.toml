[package]
name = "wgpu_rgb8_demo"
version = "0.1.0"
edition = "2021"
publish = false

[dependencies]
env_logger = "0.7"
futures = "0.3"
thiserror = "1.0"
wgpu = "0.5"
winit = "0.22"
