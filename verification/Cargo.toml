[package]
name = "muzanci_transport"
version = "0.1.0"
edition = "2021"
publish = false

[dependencies]
bytes = "1"
futures = "0.3"
postcard = { version = "1", default-features = false, features = ["alloc"] }
serde = { version = "1", features = ["derive"] }
thiserror = "2"
tokio = { version = "1", features = ["rt", "sync", "io-util", "macros", "time"] }
tokio-stream = "0.1"
tokio-util = { version = "0.7", features = ["codec", "io", "rt"] }
tracing = "0.1"
url = { version = "2", features = ["serde"] }
uuid = { version = "1", features = ["v7", "serde"] }
