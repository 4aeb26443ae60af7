[package]
name = "btc_workflow"
version = "0.1.0"
edition = "2021"
publish = false

[dependencies]
bitcoin = "*"
bitcoincore-rpc = "*"
dotenv = "*"
serde = { version = "*", features = ["derive"] }
serde_json = "*"
