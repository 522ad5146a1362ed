[package]
name = "gfx_bootstrap"
version = "0.1.0"
edition = "2021"
publish = false

[dependencies]
vulkano = "=0.34.2"
winit = { version = "=0.29.15", features = ["rwh_05"] }
