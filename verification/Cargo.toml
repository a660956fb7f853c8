[package]
name = "voxel-rs"
version = "0.1.0"
edition = "2021"

[dependencies]
env_logger = "0.11"
pollster = "0.3"
winit = "0.30"
