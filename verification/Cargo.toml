[package]
name = "ya-etcd-rs"
version = "0.1.0"
edition = "2021"
publish = false

[dependencies]
http = "=1.5.0"
prost = "=0.13.5"
thiserror = "=1.0.69"
tokio = { version = "=1.54.1", features = ["sync", "rt", "macros", "fs", "time"] }
tokio-stream = "=0.1.19"
tonic = { version = "=0.12.3", features = ["tls"] }
