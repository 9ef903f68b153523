[package]
name = "ruckus"
version = "0.1.0"
edition = "2021"
publish = false

[dependencies]
gl = "0.14"
glutin = "0.29"
image = { version = "0.24", default-features = false, features = ["png", "jpeg"] }
nalgebra-glm = "0.18"
num = "0.4"
