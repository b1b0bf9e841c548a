[package]
name = "imagetext_py"
version = "0.1.0"
edition = "2021"
publish = false

[dependencies]
image = { version = "0.24", default-features = false, features = ["png", "jpeg", "webp"] }
pyo3 = { version = "0.18", features = ["extension-module"] }
