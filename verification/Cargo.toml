[package]
name = "image_rs"
version = "0.1.0"
edition = "2021"
publish = false

[dependencies]
image = "=0.24.9"
bytemuck = "=1.25.2"
