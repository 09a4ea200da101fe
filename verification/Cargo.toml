[package]
name = "shaderkit"
version = "0.1.0"
edition = "2021"
publish = false

[dependencies]
gl = "=0.14.0"
nalgebra-glm = "=0.21.0"
