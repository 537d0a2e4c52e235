[package]
name = "engate"
version = "0.1.0"
edition = "2021"
publish = false

[dependencies]
async-trait = "0.1"
blake3 = "1"
drop_bomb = "0.1"
serde = { version = "1", features = ["derive"] }
serde_json = "1"
shigoto-types = "*"
thiserror = "2"
tokio = { version = "1", features = ["sync"] }
tracing = "0.1"
