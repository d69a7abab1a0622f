[package]
name = "arbitrage_engine"
version = "0.1.0"
edition = "2021"
publish = false

[dependencies]
anchor-lang = "0.29.0"
anchor-spl = "0.29.0"
base64 = "0.21"
dotenv = "0.15"
pyth-sdk-solana = "0.10"
solana-sdk = "1.17"
tokio = { version = "1", features = ["macros", "rt-multi-thread", "time"] }
