[package]
name = "gl_cookbook"
version = "0.1.0"
edition = "2021"
publish = false

[dependencies]
nalgebra = "*"
