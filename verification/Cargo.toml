[package]
name = "matrix_mcp_server_r2"
version = "0.1.0"
edition = "2021"
publish = false

[dependencies]
chrono = "=0.4.45"
ruma = "=0.12.2"
matrix-sdk = { version = "=0.10.0", default-features = false, features = ["rustls-tls"] }
rmcp = { version = "=3.8.0", features = ["server", "macros", "transport-streamable-http-server"] }
axum = "=0.8.9"
tokio = { version = "=1.54.1", features = ["full"] }
tokio-stream = "=0.1.19"
tower-http = { version = "=0.7.1", features = ["cors", "trace"] }
tracing = "=0.1.44"
tracing-subscriber = { version = "=0.3.23", features = ["env-filter"] }
dotenvy = "=0.15.7"
thiserror = "=2.0.21"
serde = { version = "=1.0.229", features = ["derive"] }
serde_json = "=1.0.154"
