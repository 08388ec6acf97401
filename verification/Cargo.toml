[package]
name = "unit_geometry"
version = "0.1.0"
edition = "2021"
publish = false

[dependencies]
euclid = "0.22"
