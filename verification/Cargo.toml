[package]
name = "grafica"
version = "0.1.0"
edition = "2021"
publish = false

[dependencies]
cgmath = "=0.18.0"
futures = "=0.3.34"
shaderc = "=0.10.1"
wgpu = { version = "=30.0.1", features = ["spirv"] }
winit = "=0.30.13"
