[package]
name = "hello_vulkan"
version = "0.1.0"
edition = "2021"
publish = false

[dependencies]
vulkano = "*"
vulkano-win = "*"
winit = "*"
image = "*"
