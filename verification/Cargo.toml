[package]
name = "acme_core"
version = "0.1.0"
edition = "2021"
publish = false

[dependencies]
base64 = "=0.13.1"
biscuit = "=0.5.0"
hyper = { version = "=0.14.32", features = ["client", "http1", "tcp", "stream"] }
hyper-rustls = { version = "=0.22.1", default-features = false, features = ["webpki-tokio"] }
hyper-timeout = "=0.4.1"
once_cell = "=1.21.4"
rcgen = "=0.8.14"
ring = "=0.16.20"
rustls = "=0.19.1"
serde = { version = "=1.0.229", features = ["derive"] }
serde_json = "=1.0.154"
tokio = { version = "=1.54.1", features = ["time", "sync"] }
