[package]
name = "frame_scheduler"
version = "0.1.0"
edition = "2021"
publish = false

[dependencies]
vulkano = "=0.19.0"
vulkano-shaders = "=0.19.0"
vulkano-win = "=0.19.0"
winit = "=0.22.2"
vk-sys = "=0.5.2"
