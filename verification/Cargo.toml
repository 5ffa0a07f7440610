[package]
name = "cw_mcp"
version = "0.1.0"
edition = "2021"
publish = false

[dependencies]
cosmwasm-std = "=3.0.10"
cw20-wrap = "=1.0.0"
rmcp = { version = "=3.5.1", features = ["server"] }
schemars = "=0.8.22"
serde = "=1.0.229"
serde_json = "=1.0.151"
