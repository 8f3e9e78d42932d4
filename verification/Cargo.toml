[package]
name = "libicsneo"
version = "0.1.0"
edition = "2021"
publish = false

[dependencies]
pyo3 = { version = "0.20", default-features = false, features = ["macros", "abi3-py37"] }
