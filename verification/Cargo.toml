[package]
name = "rps_simulator"
version = "0.1.0"
edition = "2021"
publish = false

[dependencies]
rustc_apfloat = "*"
image = { version = "0.24", default-features = false, features = ["png"] }
anyhow = "1"
pollster = "0.2"
wgpu = "0.14"
winit = "0.27"
