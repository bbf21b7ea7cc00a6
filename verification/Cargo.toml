[package]
name = "bridge_core"
version = "0.1.0"
edition = "2021"
publish = false

[dependencies]
borsh = "0.9"
solana-program = "~1.9"
serde = { version = "1", features = ["derive"] }
thiserror = "1"
enum-as-inner = "0.4"
