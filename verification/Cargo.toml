[package]
name = "tower_otel_http_metrics"
version = "0.1.0"
edition = "2021"
publish = false

[dependencies]
opentelemetry = "=0.33.0"
opentelemetry_sdk = { version = "=0.33.0", features = ["testing"] }
http = "=1.5.0"
axum = "=0.8.9"
tower-layer = "=0.3.3"
tower-service = "=0.3.3"
tokio = { version = "=1.53.2", features = ["rt-multi-thread", "macros", "net"] }
serde = { version = "*", features = ["derive"] }
serde_json = "*"
