[package]
name = "up_rust_py"
version = "0.1.0"
edition = "2021"
publish = false

[dependencies]
up-rust = { version = "=0.9.0", features = ["communication", "util"] }
protobuf = "=3.7.2"
pyo3 = "=0.28.3"
tokio = { version = "=1.54.1", features = ["rt-multi-thread", "sync"] }
async-trait = "=0.1.92"
