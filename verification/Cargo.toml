[package]
name = "arb_notify"
version = "0.1.0"
edition = "2021"
publish = false

[dependencies]
lru = { version = "=0.18.5", default-features = false }
dashmap = "=6.2.1"
base64 = "=0.13.1"
serde = { version = "*", features = ["derive"] }
serde_json = "*"
tokio = { version = "*", features = ["rt-multi-thread", "sync", "time", "fs", "macros", "io-util"] }
anyhow = "*"
solana-rpc-client = { version = "=3.1.14", default-features = false }
solana-rpc-client-api = "=3.1.14"
solana-pubkey = "=3.0.0"
solana-account = "=3.4.0"
solana-account-decoder-client-types = "=3.1.14"
solana-commitment-config = "=3.1.1"
