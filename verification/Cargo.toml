[package]
name = "block_header_export"
version = "0.1.0"
edition = "2021"
publish = false

[dependencies]
serde_json = "*"
dotenv = "*"
tokio = { version = "*", features = ["macros", "rt-multi-thread", "fs", "io-util"] }
web3 = { version = "*", default-features = false, features = ["http"] }
