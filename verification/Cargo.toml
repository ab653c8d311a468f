[package]
name = "swap_rpc"
version = "0.1.0"
edition = "2021"
publish = false

[dependencies]
grin_util = "5"
hyper = "0.14"
jsonrpc-core = "18.0"
jsonrpc-derive = "18.0"
jsonrpc-http-server = "18.0"
serde = { version = "1", features = ["derive"] }

[dev-dependencies]
serde_json = "1"
