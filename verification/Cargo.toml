[package]
name = "hive_core"
version = "0.1.0"
edition = "2021"
publish = false

[dependencies]
anyhow = "1"
geo-types = "0.7"
h3ron = "*"
pyo3 = { version = "0.18", features = ["abi3-py37"] }
serde = { version = "1", features = ["derive"] }
