[package]
name = "sqlx_rxqlite"
version = "0.1.0"
edition = "2021"
publish = false

[dependencies]
rxqlite-common = "=0.1.4"
rxqlite-client = "=0.1.8"
sqlx-core = "=0.7.4"
futures-core = "=0.3.34"
anyhow = "=1.0.104"
chrono = "=0.4.45"
