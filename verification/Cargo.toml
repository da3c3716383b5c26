[package]
name = "ethereum_consensus"
version = "0.1.0"
edition = "2021"
publish = false

[dependencies]
ssz_rs = "=0.9.0"

[dev-dependencies]
sha2 = "=0.9.9"
