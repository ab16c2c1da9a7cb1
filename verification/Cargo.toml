[package]
name = "edge_preview"
version = "0.1.0"
edition = "2021"
publish = false

[dependencies]
serde_json = "*"
url = "*"
tokio = { version = "*", features = ["rt", "rt-multi-thread"] }
futures = "*"
