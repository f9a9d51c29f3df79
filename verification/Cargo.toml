[package]
name = "ore_hq_client"
version = "0.1.0"
edition = "2021"
publish = false

[dependencies]
async-compat = "0.2"
bevy = { version = "=0.13.2", default-features = false }
bevy_tasks = { version = "=0.13.2", features = ["multi-threaded"] }
bincode = "=1.3.3"
cocoon = "0.3"
copypasta = "0.10"
crossbeam-channel = "=0.5.17"
serde = { version = "=1.0.229", features = ["derive"] }
solana-sdk = "=1.18.26"
sysinfo = "=0.30.13"
tiny-bip39 = "=0.8.2"
toml = "=0.8.23"
