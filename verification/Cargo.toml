[package]
name = "engine"
version = "0.1.0"
edition = "2021"
publish = false

[dependencies]
gl = "0.14"
glfw = "*"
image = { version = "0.25", default-features = false, features = ["png", "jpeg"] }
