[package]
name = "stereo_pbr"
version = "0.1.0"
edition = "2021"
publish = false

[dependencies]
gfx = "*"
nalgebra = "*"
