[package]
name = "file_storage"
version = "0.1.0"
edition = "2021"
publish = false

[dependencies]
cloud-storage = "0.11"
futures = "0.3"
futures-util = "0.3"
thiserror = "1"
tokio = { version = "1", features = ["fs", "io-util", "rt"] }
tokio-util = { version = "0.7", features = ["io"] }
