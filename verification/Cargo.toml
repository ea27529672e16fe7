[package]
name = "glium_c_backend"
version = "0.1.0"
edition = "2021"
publish = false

[dependencies]
glium = { version = "*", default-features = false }
