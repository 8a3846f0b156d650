[package]
name = "runtime_support"
version = "0.1.0"
edition = "2021"
publish = false

[dependencies]
ed25519-dalek = "*"
blake2 = "*"
twox-hash = "*"
