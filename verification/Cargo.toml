[package]
name = "signal_client_core"
version = "0.1.0"
edition = "2021"
publish = false

[dependencies]
hex = "0.4"
http = "1"
log = "0.4"
futures-util = "0.3"
tokio = { version = "1", features = ["sync"] }
tokio-stream = "0.1"
