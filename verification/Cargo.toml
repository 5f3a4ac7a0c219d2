[package]
name = "ricq"
version = "0.1.0"
edition = "2021"
publish = false

[dependencies]
bytes = "=1.12.1"
cached = { version = "=0.51.4", default-features = false }
md5 = "=0.7.0"
prost = { version = "=0.11.9", default-features = false, features = ["std"] }
rand = "=0.8.8"
tokio = { version = "=1.54.1", features = ["sync"] }
tracing = "=0.1.44"
