[package]
name = "cups_client"
version = "0.1.0"
edition = "2021"
publish = false

[dependencies]
ipp = { version = "=8.0.0", default-features = false, features = ["async-client-rustls"] }
async-stream = "=0.3.6"
futures = "0.3"
thiserror = "2"
tokio = { version = "1", features = ["time", "fs", "io-util", "rt", "macros"] }
tokio-util = { version = "0.7", features = ["compat"] }
tracing = "0.1"
zbus = { version = "5", default-features = false, features = ["tokio"] }
