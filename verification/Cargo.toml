[package]
name = "python_payload"
version = "0.1.0"
edition = "2021"
publish = false

[dependencies]
anyhow = "1"
bytes = "1"
pyo3 = { version = "0.23", default-features = false, features = ["macros", "py-clone", "abi3-py310", "extension-module"] }
pythonize = "0.23"
rmp = "0.8"
rmp-serde = "1"
rmpv = { version = "1", features = ["with-serde"] }
serde = { version = "1", features = ["derive"] }
serde_json = "1"
serde-transcode = "1"
tokio = { version = "1", features = ["rt"], default-features = false }
