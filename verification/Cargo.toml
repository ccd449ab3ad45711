[package]
name = "request_telemetry"
version = "0.1.0"
edition = "2021"
publish = false

[dependencies]
axum = "=0.8.9"
opentelemetry = "=0.33.0"
opentelemetry-otlp = { version = "=0.33.0", features = ["grpc-tonic"] }
opentelemetry_sdk = "=0.33.0"
tokio = { version = "=1.53.2", features = ["full"] }
tower-http = { version = "=0.7.1", features = ["trace"] }
tracing = "=0.1.44"
tracing-opentelemetry = "=0.34.0"
tracing-subscriber = { version = "=0.3.23", features = ["env-filter"] }
