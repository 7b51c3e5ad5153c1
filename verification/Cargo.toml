[package]
name = "voxel_physics"
version = "0.1.0"
edition = "2021"
publish = false

[dependencies]
cgmath = "*"
rand = "*"
