[package]
name = "licensor"
version = "0.1.0"
edition = "2021"
publish = false

[dependencies]
anyhow = "=1.0.104"
base64 = "=0.13.1"
chrono = { version = "=0.4.45", features = ["serde"] }
clap = { version = "=3.2.25", features = ["derive"] }
libc = "=0.2.191"
rand = "0.8"
rsa = "0.4"
serde_json = { version = "=1.0.154", features = ["raw_value"] }
sha2 = "=0.9.9"
wasm-bindgen = "=0.2.129"
