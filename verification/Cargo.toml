[package]
name = "scripts"
version = "0.1.0"
edition = "2021"
publish = false

[dependencies]
anyhow = "1"
base64 = "0.22"
cosmwasm-std = "2"
cw-orch = "0.28"
hex = "0.4"
serde_json = "1"
tokio = { version = "1", features = ["rt", "time", "macros"] }
tracing = "0.1"
