[package]
name = "cc_utils"
version = "0.1.0"
edition = "2021"
publish = false

[dependencies]
anyhow = "1"
reqwest = { version = "*", default-features = false }
rmp-serde = "1"
salvo = { version = "*", features = ["oapi"] }
serde = { version = "1", features = ["derive"] }
serde_json = "1"
tracing = "0.1"
