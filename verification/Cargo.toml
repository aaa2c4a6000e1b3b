[package]
name = "webtransport_quinn"
version = "0.1.0"
edition = "2021"
publish = false

[dependencies]
bytes = "1"
futures = "0.3"
quinn = "0.10"
quinn-proto = "0.10"
tokio = { version = "1", features = ["io-util", "rt"] }
webtransport-generic = "*"
webtransport-proto = "*"
