[package]
name = "linkstowr"
version = "0.1.0"
edition = "2021"
publish = false

[dependencies]
sha2 = "=0.10.9"
hex = "=0.4.3"
bs58 = "=0.5.1"
rand = "=0.8.8"
jsonwebtoken = "=8.3.0"
serde_json = "=1.0.154"
chrono = "=0.4.45"
argon2 = "=0.5.3"
serde = { version = "=1.0.229", features = ["derive"] }
axum = "=0.6.20"
tokio = { version = "=1.54.1", features = ["full"] }
async-trait = "=0.1.92"
tower-http = { version = "=0.4.4", features = ["cors"] }
tracing = "=0.1.44"
uuid = { version = "=1.29.0", features = ["v4"] }
dotenv = "0.15"
opentelemetry = { version = "0.20", features = ["rt-tokio"] }
opentelemetry-otlp = { version = "0.13", default-features = false, features = ["http-proto", "reqwest-client", "trace"] }
opentelemetry-semantic-conventions = "0.12"
tracing-opentelemetry = "0.21"
tracing-subscriber = { version = "0.3", features = ["env-filter", "json"] }
axum-tracing-opentelemetry = "0.14"
