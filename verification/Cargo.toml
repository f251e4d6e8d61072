[package]
name = "affine_executor"
version = "0.1.0"
edition = "2021"
publish = false

[dependencies]
ndarray = "0.16"
pyo3 = { version = "0.22", features = ["auto-initialize"] }
