[package]
name = "tls_transport"
version = "0.1.0"
edition = "2021"
publish = false

[dependencies]
rustls-pemfile = "=2.2.0"
rustls-pki-types = "=1.15.1"
rustls = { version = "=0.23.45", default-features = false, features = ["ring", "std", "tls12", "logging"] }
rustls-tokio-stream = "=0.8.1"
tokio = { version = "=1.53.2", features = ["net", "io-util", "rt", "sync", "time", "fs", "macros"] }
serde = { version = "=1.0.229", features = ["derive"] }
