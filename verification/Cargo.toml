[package]
name = "ct_monitor"
version = "0.1.0"
edition = "2021"
publish = false

[dependencies]
anyhow = "1"
futures = "0.3"
keystore-rs = "*"
log = "0.4"
pretty_env_logger = "*"
reqwest = { version = "0.12", features = ["json"] }
ring = "0.17"
serde = { version = "1", features = ["derive"] }
serde_json = "1"
tokio = { version = "1", features = ["full"] }
warp = "0.3"
wasm-bindgen = "0.2"
