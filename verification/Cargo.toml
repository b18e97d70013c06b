[package]
name = "multiplay_rs"
version = "0.1.0"
edition = "2021"
publish = false

[dependencies]
rand = "0.8"
bimap = "0.6"
flume = "0.11"
serde = { version = "1", features = ["derive"] }
serde_cbor = "0.11"
tokio = { version = "1", features = ["full"] }
warp = "0.3"
futures = "0.3"
anyhow = "1"
log = "0.4"
pretty_env_logger = "0.5"
async-std = "1"
async-trait = "0.1"
tokio-tungstenite = "0.21"
url = "2"
