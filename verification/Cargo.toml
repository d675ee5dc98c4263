[package]
name = "account_ledger"
version = "0.1.0"
edition = "2021"
publish = false

[dependencies]
ntex = { version = "=1.2.1", features = ["tokio"] }
ntex-http = "=0.1.13"
r2d2 = "=0.8.10"
r2d2_postgres = "=0.18.2"
serde = { version = "=1.0.229", features = ["derive"] }
