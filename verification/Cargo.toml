[package]
name = "a320_systems"
version = "0.1.0"
edition = "2021"
publish = false

[dependencies]
nalgebra = "0.30"
uom = "0.33"
