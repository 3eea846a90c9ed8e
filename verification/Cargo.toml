[package]
name = "nostr_keys"
version = "0.1.0"
edition = "2021"
publish = false

[dependencies]
secp256k1 = { version = "0.27", features = ["global-context", "rand-std"] }
bech32 = "0.9"
