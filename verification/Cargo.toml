[package]
name = "flowcontrol"
version = "0.1.0"
edition = "2021"
publish = false

[dependencies]
blake3 = "1"
rand = "0.8"
serde = { version = "1", features = ["derive"] }
serde_json = "1"
bincode = "1"
mdns-sd = "0.13"
tokio = { version = "1", features = ["full"] }
thiserror = "2"
core-foundation = "*"
core-graphics = "*"
