[package]
name = "feed_cranker"
version = "0.1.0"
edition = "2021"
publish = false

[dependencies]
clap = { version = "4", features = ["derive"] }
solana-sdk = "2"
tokio = { version = "1", features = ["macros", "rt-multi-thread"] }
