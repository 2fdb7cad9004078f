[package]
name = "lightning_transaction_sync"
version = "0.1.0"
edition = "2021"
publish = false

[dependencies]
bitcoin = "0.32"
esplora-client = { version = "0.11", default-features = false, features = ["blocking"] }
lightning-invoice = "0.33"
