[package]
name = "crank"
version = "0.1.0"
edition = "2021"
publish = false

[dependencies]
solana-sdk = "=2.3.1"
tokio = { version = "=1.54.1", default-features = false, features = ["rt", "sync", "time"] }
async-channel = "=1.9.0"
chrono = { version = "=0.4.45", default-features = false, features = ["clock", "std"] }
log = "=0.4.34"
