[package]
name = "pinocchio_counter"
version = "0.1.0"
edition = "2021"
publish = false

[dependencies]
shellexpand = "3"
solana-program = "2"
solana-sdk = "2"
tokio = { version = "1", features = ["macros", "rt-multi-thread", "time"] }
