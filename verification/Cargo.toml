[package]
name = "airs-window"
version = "0.1.0"
edition = "2021"
publish = false

[dependencies]
anyhow = "1"
pollster = "*"
thiserror = "2"
tracing = "0.1"
wgpu = "*"
winit = "0.30"
