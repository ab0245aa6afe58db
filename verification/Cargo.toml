[package]
name = "textroom"
version = "0.1.0"
edition = "2021"
publish = false

[dependencies]
bytes = "1"
chrono = { version = "=0.4.45", default-features = false, features = ["clock", "std"] }
futures = "0.3"
http-body-util = "0.1"
hyper = { version = "1", features = ["full"] }
hyper-tls = "0.6"
hyper-tungstenite = "=0.30.0"
hyper-util = { version = "0.1", features = ["full"] }
querystring = "=1.1.0"
serde = { version = "1", features = ["derive"] }
serde_json = "1"
tokio = { version = "1", features = ["full"] }
urlencoding = "=2.1.3"
