[package]
name = "statekv"
version = "0.1.0"
edition = "2021"
publish = false

[dependencies]
async-trait = "0.1"
axum = "0.7"
dapr = "*"
dotenvy = "0.15"
opentelemetry = "*"
opentelemetry-otlp = { version = "*", features = ["http-proto", "metrics"] }
opentelemetry_sdk = { version = "*", features = ["rt-tokio"] }
reqwest = { version = "0.12", default-features = false }
tokio = { version = "1", features = ["full"] }
tower-http = { version = "0.5", features = ["trace"] }
tracing = "0.1"
tracing-subscriber = { version = "0.3", features = ["env-filter", "json"] }
