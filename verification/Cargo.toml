[package]
name = "analyzer_bridge"
version = "0.1.0"
edition = "2021"
publish = false

[dependencies]
anyhow = "1"
async-lsp = "0.2"
async-process = "2"
dunce = "1"
flume = "0.11"
lsp-types = "0.95"
mcp-core = "*"
serde = { version = "1", features = ["derive"] }
serde_json = "1"
tokio = { version = "1", features = ["process", "rt", "rt-multi-thread", "sync"] }
tower = { version = "*", features = ["util"] }
tracing = "0.1"
url = "2"
