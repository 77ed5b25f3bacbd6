[package]
name = "glfw_bridge"
version = "0.1.0"
edition = "2021"
publish = false

[dependencies]
glfw = { version = "=0.63.0", default-features = false }
lazy_static = "=1.5.1"
