[package]
name = "massh"
version = "0.1.0"
edition = "2021"
publish = false

[dependencies]
ansi_term = "0.12"
anyhow = "1"
parking_lot = "0.11"
serde = { version = "1", features = ["derive"] }
serde_json = "1"
serde_yaml = "0.8"
ssh2 = "0.9"
structopt = "0.3"
threadpool = "1"
