[package]
name = "gpu_image_gen"
version = "0.1.0"
edition = "2021"
publish = false

[dependencies]
image = { version = "0.24", default-features = false, features = ["png"] }
vulkano = "0.32"
vulkano-shaders = "0.32"
