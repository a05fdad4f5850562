[package]
name = "tlsnpy"
version = "0.1.0"
edition = "2021"
publish = false

[dependencies]
anyhow = "1"
bincode = "1"
pyo3 = "0.22"
tokio = { version = "1", features = ["rt", "rt-multi-thread", "net", "sync", "macros"] }
tokio-util = { version = "0.7", features = ["compat"] }
