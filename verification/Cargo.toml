[package]
name = "try_vulkano"
version = "0.1.0"
edition = "2021"
publish = false

[dependencies]
anyhow = "=1.0.104"
vk-sys = "=0.5.0"
vulkano = "=0.16.0"
vulkano-shaders = "=0.16.0"
