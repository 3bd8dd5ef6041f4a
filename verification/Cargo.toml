[package]
name = "mcp_server"
version = "0.1.0"
edition = "2021"
publish = false

[dependencies]
rmcp = { version = "*", features = ["server", "macros", "transport-io"] }
schemars = "*"
serde = { version = "*", features = ["derive"] }
serde_json = "*"
tokio = { version = "*", features = ["full"] }
tokio-util = "*"
