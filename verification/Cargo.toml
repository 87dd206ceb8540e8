[package]
name = "wascap"
version = "0.1.0"
edition = "2021"
publish = false

[dependencies]
base64 = "*"
nkeys = "*"
parity-wasm = "*"
serde_json = "1"
