[package]
name = "solana_rpc_minimal"
version = "0.1.0"
edition = "2021"
publish = false

[dependencies]
rand = "0.7"
jsonrpc-core = "18"
jsonrpc-http-server = "18"
tokio = { version = "1", features = ["full"] }
socket2 = "0.4"
nix = { version = "0.26", features = ["socket"] }
serde_json = "1"
minreq = "2"
