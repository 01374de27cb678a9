[package]
name = "image_example"
version = "0.1.0"
edition = "2021"
publish = false

[dependencies]
png = "=0.18.1"
vulkano = "=0.35.2"
vulkano-shaders = "=0.35.0"
winit = "=0.30.13"
spirv-std = "=0.11.0"
ash = "=0.38.0"
