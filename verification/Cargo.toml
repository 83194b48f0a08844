[package]
name = "protocol_dispatch"
version = "0.1.0"
edition = "2021"
publish = false

[dependencies]
bytes = "0.4"
serde = { version = "1", features = ["derive"] }
serde_derive = "1"
serde_json = "1"
tokio = "0.1"
tokio-codec = "0.1"
tokio-io = "0.1"
