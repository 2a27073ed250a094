[package]
name = "bank_ledger"
version = "0.1.0"
edition = "2021"
publish = false

[dependencies]
rand = "=0.10.3"
rusqlite = { version = "=0.40.2", features = ["bundled", "fallible_uint"] }
