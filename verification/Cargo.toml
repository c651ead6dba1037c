[package]
name = "solkit"
version = "0.1.0"
edition = "2021"
publish = false

[dependencies]
bs58 = "=0.5.1"
base64 = "=0.22.1"
solana-sdk = "=5.0.0"
solana-address = { version = "=2.9.0", features = ["curve25519"] }
serde = { version = "=1.0.229", features = ["derive"] }
axum = "=0.8.9"
tokio = { version = "=1.53.2", features = ["macros", "rt-multi-thread", "net"] }

[dev-dependencies]
spl-token = "=9.0.0"
spl-associated-token-account = "=8.0.0"
