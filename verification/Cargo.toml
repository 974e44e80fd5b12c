[package]
name = "workflow_rpc"
version = "0.1.0"
edition = "2021"
publish = false

[dependencies]
ahash = "=0.8.12"
rand = "=0.10.3"
borsh = "=0.10.4"
serde = { version = "=1.0.229", features = ["derive"] }
serde_json = "=1.0.154"
thiserror = "=1.0.69"
async-std = "=1.13.2"
async-trait = "=0.1.92"
futures = "=0.3.34"
tokio = { version = "=1.54.1", features = ["sync"] }
tungstenite = "=0.17.3"
wasm-bindgen = "=0.2.129"
workflow-core = "=0.1.0"
workflow-log = "=0.1.0"
workflow-websocket = "=0.1.2"
