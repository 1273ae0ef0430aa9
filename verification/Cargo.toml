[package]
name = "gl_pipeline"
version = "0.1.0"
edition = "2021"
publish = false

[dependencies]
glfw = { version = "=0.52.0", default-features = false }
glow = "=0.13.1"
image = { version = "=0.25.10", default-features = false, features = ["png"] }
