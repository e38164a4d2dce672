[package]
name = "burrow"
version = "0.1.0"
edition = "2021"
publish = false

[dependencies]
wildmatch = "2"
yamux = "0.13"
futures = "0.3"
tokio = { version = "1", features = ["full"] }
tokio-util = { version = "0.7", features = ["compat"] }
tokio-tungstenite = "0.24"
tracing = "0.1"
once_cell = "1"
tari_metrics = "*"
