[package]
name = "cnft_fractionalizer"
version = "0.1.0"
edition = "2021"
publish = false

[dependencies]
anchor-lang = "=0.31.2"
anchor-spl = "=0.31.2"
mpl-bubblegum = "=4.0.0"
solana-program = "=2.3.0"
spl-account-compression = "=1.0.0"
