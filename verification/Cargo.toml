[package]
name = "mcp_filesystem"
version = "0.1.0"
edition = "2021"
publish = false

[dependencies]
chrono = "0.4"
git2 = { version = "*", default-features = false }
rpc-router = "*"
serde = { version = "1", features = ["derive"] }
serde_json = "1"
tokio = { version = "1", features = ["rt", "io-std", "io-util"] }
url = "2"
