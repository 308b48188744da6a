[package]
name = "rknn_convert"
version = "0.1.0"
edition = "2021"
publish = false

[dependencies]
clap = { version = "4", features = ["derive"] }
pyo3 = "0.24"
serde = { version = "1", features = ["derive"] }
serde_json = "1"
stanza = "*"
toml = "0.8"
validator = { version = "*", features = ["derive"] }
