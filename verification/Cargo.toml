[package]
name = "nexsock_protocol_core"
version = "0.1.0"
edition = "2021"
publish = false

[dependencies]
bincode = "2"
bytes = "1"
futures = "0.3"
thiserror = "2"
tokio = { version = "1", features = ["io-util"] }
