[package]
name = "mothership"
version = "0.1.0"
edition = "2021"
publish = false

[dependencies]
solana-sdk = "=5.0.0"
blstrs = "=0.7.1"
group = "=0.13.0"
getrandom = "=0.4.3"
borsh = "=1.8.1"
serde = { version = "=1.0.229", features = ["derive"] }
serde_json = "=1.0.151"
