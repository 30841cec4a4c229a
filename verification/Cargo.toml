[package]
name = "tile_render"
version = "0.1.0"
edition = "2021"
publish = false

[dependencies]
image = "=0.22.5"
vulkano = "=0.16.0"
vulkano-win = "=0.16.0"
vulkano-shaders = "=0.16.0"
vk-sys = "=0.5.2"
winit = "=0.19.5"
actix = { version = "=0.9.0", default-features = false }
