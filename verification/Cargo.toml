[package]
name = "btc_handshake"
version = "0.1.0"
edition = "2021"
publish = false

[dependencies]
bitcoin = "*"
bytes = "*"
futures = "*"
structopt = "*"
tokio = { version = "*", features = ["full"] }
