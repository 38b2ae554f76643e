[package]
name = "argminmax"
version = "0.1.0"
edition = "2021"
publish = false

[dependencies]
ndarray = "0.15"

[dev-dependencies]
rand = "0.8"
