[package]
name = "nft_indexer"
version = "0.1.0"
edition = "2021"
publish = false

[dependencies]
bigdecimal = "=0.3.1"
num-bigint = "0.4"
num-traits = "0.2"
chrono = "0.4"
serde = { version = "1", features = ["derive"] }
serde_json = "1"
anyhow = "1"
log = "0.4"
