[package]
name = "guest_layout"
version = "0.1.0"
edition = "2021"
publish = false

[dependencies]
solana-sbpf = "=0.13.1"
solana-account = "=5.1.0"
solana-pubkey = "=4.4.0"
solana-instruction-error = "=3.1.0"
solana-svm-transaction = "=7.0.0"
