[package]
name = "randomos"
version = "0.1.0"
edition = "2021"
publish = false

[dependencies]
pyo3 = { version = "0.13", features = ["extension-module"] }
