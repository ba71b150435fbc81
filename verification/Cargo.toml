[package]
name = "w_network"
version = "0.1.0"
edition = "2021"
publish = false

[dependencies]
async-std = "1"
async-tungstenite = { version = "0.15", features = ["async-std-runtime"] }
bincode = "1.3"
futures = "0.3"
futures-lite = "1"
futures-locks = "0.7"
serde = { version = "1", features = ["derive"] }
snafu = "0.6"
