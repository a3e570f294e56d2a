[package]
name = "tg_mcp_server"
version = "0.1.0"
edition = "2021"
publish = false

[dependencies]
anyhow = "1"
axum = "*"
clap = { version = "4", features = ["derive"] }
grammers-client = "*"
grammers-session = "*"
grammers-tl-types = "*"
rand = "*"
rmcp = { version = "*", features = ["server", "macros", "transport-io", "transport-streamable-http-server"] }
schemars = "*"
serde = { version = "1", features = ["derive"] }
serde_json = "1"
tokio = { version = "1", features = ["full"] }
tokio-util = "*"
tracing-subscriber = { version = "*", features = ["env-filter"] }
