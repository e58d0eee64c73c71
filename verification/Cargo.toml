[package]
name = "spl-governance"
version = "0.1.0"
edition = "2021"
publish = false

[dependencies]
borsh = { version = "1", features = ["derive"] }
num-derive = "0.4"
num-traits = "0.2"
solana-program = "1.18"
thiserror = "1"
