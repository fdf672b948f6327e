[package]
name = "daemon_runner"
version = "0.1.0"
edition = "2021"
publish = false

[dependencies]
bitcoin = { version = "=0.32.102", features = ["serde"] }
bitcoincore-rpc = "=0.19.0"
liquid-rpc = "=0.2.0"
rand = "=0.10.3"
serde = { version = "=1.0.229", features = ["derive"] }
