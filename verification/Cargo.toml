[package]
name = "chain_listener"
version = "0.1.0"
edition = "2021"
publish = false

[dependencies]
derivative = "2"
frame-metadata = "*"
futures = "0.3"
hex = "0.4"
log = "0.4"
parity-scale-codec = "*"
parking_lot = "0.12"
scale-info = "*"
scale-value = "*"
serde = { version = "1", features = ["derive"] }
serde_json = "1"
sp-core = "*"
sp-crypto-hashing = "*"
sp-runtime = "*"
thiserror = "1"
