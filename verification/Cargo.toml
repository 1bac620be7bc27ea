[package]
name = "pyinputcapture"
version = "0.1.0"
edition = "2021"
publish = false

[dependencies]
ashpd = { version = "0.11", default-features = false, features = ["tokio"] }
futures-util = "0.3"
pyo3 = { version = "0.24", features = ["abi3-py311", "extension-module"] }
tokio = { version = "1", features = ["rt-multi-thread", "sync", "macros", "time"] }
