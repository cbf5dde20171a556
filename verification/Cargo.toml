[package]
name = "mesh2d"
version = "0.1.0"
edition = "2021"
publish = false

[dependencies]
lyon = "0.17"
mint = "0.5"
sdl2 = "*"
wgpu = "0.14"
