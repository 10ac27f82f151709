[package]
name = "viewer4d"
version = "0.1.0"
edition = "2021"
publish = false

[dependencies]
gl = "*"
glfw = "*"
nalgebra = "*"
