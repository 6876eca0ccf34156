[package]
name = "bitcoin_address_analyzer"
version = "0.1.0"
edition = "2021"
publish = false

[dependencies]
bitcoin = "0.32"
serde_json = "1"
clap = { version = "4", features = ["derive"] }
anyhow = "1"
