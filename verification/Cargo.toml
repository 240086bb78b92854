[package]
name = "fractal"
version = "0.1.0"
edition = "2021"
publish = false

[dependencies]
chrono = "=0.4.45"
notify-rust = "=4.18.2"
secret-service = { version = "=5.2.0", default-features = false, features = ["crypto-rust", "rt-async-io-crypto-rust"] }
