[package]
name = "antigravity_core_mcp"
version = "0.1.0"
edition = "2021"
publish = false

[dependencies]
percent-encoding = "2"
toml = "0.8"
serde = { version = "1", features = ["derive"] }
serde_json = "1"
schemars = "*"
rmcp = { version = "*", features = ["server", "macros", "transport-io"] }
tokio = { version = "1", features = ["full"] }
reqwest = { version = "0.12", default-features = false, features = ["json", "rustls-tls"] }
