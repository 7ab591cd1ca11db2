[package]
name = "mining_net"
version = "0.1.0"
edition = "2021"
publish = false

[dependencies]
bincode = "=2.0.1"
serde = { version = "=1.0.229", features = ["derive"] }
tokio = { version = "=1.54.1", features = ["macros", "net", "rt-multi-thread", "sync", "time"] }
