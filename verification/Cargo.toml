[package]
name = "spexia"
version = "0.1.0"
edition = "2021"
publish = false

[dependencies]
cpal = "0.15"
gl = "0.14"
glfw = "*"
rustfft = "6"
