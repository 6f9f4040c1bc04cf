[package]
name = "fil_consensus"
version = "0.1.0"
edition = "2021"
publish = false

[dependencies]
anyhow = "1"
base64 = "0.21"
cid = "0.11"
multiaddr = "0.19"
num-bigint = "0.4"
serde = { version = "1", features = ["derive"] }
serde_json = "1"
thiserror = "1"
