[package]
name = "cutypr"
version = "0.1.0"
edition = "2021"
publish = false

[dependencies]
serde_json = "*"
hmac = "*"
sha2 = "*"
hex = "*"
zmq = "*"
pyo3 = "*"
