[package]
name = "pathfinder_gl"
version = "0.1.0"
edition = "2021"
publish = false

[dependencies]
gl = "0.14"
pathfinder_geometry = "*"
pathfinder_gpu = "*"
pathfinder_simd = "*"
