[package]
name = "gpu_tour"
version = "0.1.0"
edition = "2021"
publish = false

[dependencies]
image = { version = "=0.25.10", default-features = false, features = ["png"] }
vulkano = "=0.11.1"
vulkano-shaders = "0.11"
vulkano-win = "=0.11.1"
winit = "=0.18.1"
