[package]
name = "async_demos"
version = "0.1.0"
edition = "2021"
publish = false

[dependencies]
anyhow = "1"
bytes = "1"
chrono = "0.4"
futures-util = "0.3"
http = "1"
http-body-util = "0.1"
hyper = { version = "1", features = ["server", "http1"] }
hyper-util = { version = "0.1", features = ["tokio"] }
pin-project = "1"
tokio = { version = "1", features = ["full"] }
tokio-test = "0.4"
tracing = "0.1"
tracing-subscriber = "0.3"
