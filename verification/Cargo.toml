[package]
name = "binance_spot_rs"
version = "0.1.0"
edition = "2021"
publish = false

[dependencies]
anyhow = "1"
rust_decimal = { version = "1", features = ["serde-with-str"] }
serde = { version = "1", features = ["derive"] }
serde_json = "1"
