[package]
name = "lightning_liquidity"
version = "0.1.0"
edition = "2021"
publish = false

[dependencies]
bitcoin = "=0.30.3"
chrono = { version = "=0.4.45", default-features = false, features = ["alloc", "serde"] }
lightning = "=0.0.121"
serde = { version = "=1.0.229", features = ["derive"] }
serde_json = { version = "=1.0.154", features = ["raw_value"] }
