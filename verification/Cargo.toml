[package]
name = "rsclaw"
version = "0.1.0"
edition = "2021"
publish = false

[dependencies]
anyhow = "1"
bytes = "1"
futures = "0.3"
reqwest = { version = "0.12", default-features = false, features = ["json", "stream"] }
serde_json = "1"
tokio = { version = "1", features = ["sync"] }
tracing = "0.1"
