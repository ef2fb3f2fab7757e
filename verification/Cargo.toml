[package]
name = "traffic-forwarder-b"
version = "0.1.0"
edition = "2021"
publish = false

[dependencies]
async-trait = "0.1"
serde = { version = "1", features = ["derive"] }
serde_derive = "1"
tokio = { version = "1", features = ["sync", "net", "io-util", "time", "rt-multi-thread", "macros"] }
