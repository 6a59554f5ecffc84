[package]
name = "r3d3"
version = "0.1.0"
edition = "2021"
publish = false

[dependencies]
failure = "0.1"
floating-duration = "0.1"
gl = "*"
nalgebra = "*"
sdl2 = "*"
