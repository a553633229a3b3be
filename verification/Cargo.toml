[package]
name = "sprite_engine"
version = "0.1.0"
edition = "2021"
publish = false

[dependencies]
gl = "0.14"
glfw = { version = "*", default-features = false }
image = { version = "*", default-features = false, features = ["png"] }
cgmath = "0.18"
