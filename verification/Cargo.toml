[package]
name = "ga4-mcp"
version = "0.1.0"
edition = "2021"
publish = false

[dependencies]
anyhow = "=1.0.104"
axum = "=0.8.9"
axum-server = { version = "=0.8.0", features = ["tls-rustls"] }
clap = { version = "=4.6.7", features = ["derive", "env"] }
duckdb = "=1.20000.1"
gcp_auth = "=0.12.7"
ipnet = "=2.12.2"
reqwest = { version = "=0.12.28", default-features = false, features = ["json", "rustls-tls"] }
rmcp = { version = "=1.8.0", features = ["server", "macros", "transport-io", "transport-streamable-http-server"] }
rustls = { version = "=0.23.46", features = ["ring"] }
schemars = "=1.2.3"
serde = { version = "=1.0.229", features = ["derive"] }
serde_json = "=1.0.154"
tokio = { version = "=1.54.1", features = ["full"] }
tracing = "=0.1.44"
tracing-subscriber = { version = "=0.3.23", features = ["env-filter"] }
