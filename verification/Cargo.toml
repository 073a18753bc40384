[package]
name = "monero-harness"
version = "0.1.0"
edition = "2021"
publish = false

[dependencies]
anyhow = "1"
rand = "0.7"
reqwest = { version = "0.10", default-features = false, features = ["json"] }
serde = { version = "1", features = ["derive"] }
serde_json = "1"
testcontainers = "0.10"
tokio = { version = "0.2", default-features = false, features = ["macros", "rt-core", "time"] }
