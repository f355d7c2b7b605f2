[package]
name = "rinha_ledger"
version = "0.1.0"
edition = "2021"
publish = false

[dependencies]
actix-web = "4"
chrono = "0.4"
deadpool-postgres = "*"
serde = { version = "1", features = ["derive"] }
tokio-postgres = "0.7"
