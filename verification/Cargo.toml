[package]
name = "openai_compat"
version = "0.1.0"
edition = "2021"
publish = false

[dependencies]
anyhow = "1"
async-stream = "0.3"
async-trait = "0.1"
futures = "0.3"
reqwest = { version = "0.12", default-features = false, features = ["json", "stream"] }
rmcp = { version = "*", default-features = false }
serde_json = "1"
tokio = { version = "1", features = ["macros", "rt", "time"] }
tokio-stream = "0.1"
tokio-util = { version = "0.7", features = ["codec", "io"] }
