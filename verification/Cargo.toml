[package]
name = "goose_plugins"
version = "0.1.0"
edition = "2021"
publish = false

[dependencies]
url = "2"
reqwest = "0.12"
tokio = { version = "1", features = ["fs", "io-util", "process", "sync", "rt-multi-thread", "macros"] }
axum = "0.7"
http = "1"
serde = { version = "1", features = ["derive"] }
serde_json = "1"
thiserror = "1"
utoipa = "4"
async-trait = "0.1"
anyhow = "1"
