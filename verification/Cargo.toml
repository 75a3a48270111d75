[package]
name = "evolution_sim"
version = "0.1.0"
edition = "2021"
publish = false

[dependencies]
rand = "=0.8.8"
gl = "=0.14.0"
glfw = { version = "=0.52.0", default-features = false }
