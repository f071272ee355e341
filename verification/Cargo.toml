[package]
name = "triangle_engine"
version = "0.1.0"
edition = "2021"
publish = false

[dependencies]
vulkano = "0.34"
vulkano-win = "*"
winit = "0.28"
log = "0.4"
flexi_logger = "*"
anyhow = "1"
