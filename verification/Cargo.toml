[package]
name = "beakr_core"
version = "0.1.0"
edition = "2021"
publish = false

[dependencies]
base64 = "*"
glob = "*"
rand = "0.8"
serde = { version = "1", features = ["derive"] }
serde_json = "1"
tokio = { version = "1", features = ["rt-multi-thread", "macros", "time", "sync", "net", "io-util"] }
tokio-tungstenite = "*"
futures-util = "0.3"
walkdir = "2"
chrono = "0.4"
hostname = "*"
