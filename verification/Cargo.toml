[package]
name = "goose_acp"
version = "0.1.0"
edition = "2021"
publish = false

[dependencies]
agent-client-protocol = "=3.6.0"
async-trait = "=0.1.92"
rmcp = { version = "=2.2.0", default-features = false }
serde = { version = "=1.0.229", features = ["derive"] }
serde_json = "=1.0.154"
tracing = "=0.1.44"
