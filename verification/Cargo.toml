[package]
name = "cloud_download"
version = "0.1.0"
edition = "2021"
publish = false

[dependencies]
urlencoding = "2"
reqwest = { version = "0.12", default-features = false, features = ["cookies", "stream", "json"] }
tokio = { version = "1", features = ["rt-multi-thread", "macros", "time", "fs", "io-util"] }
futures-util = "0.3"
serde = { version = "1", features = ["derive"] }
