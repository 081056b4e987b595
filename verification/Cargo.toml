[package]
name = "rust_auth"
version = "0.1.0"
edition = "2021"
publish = false

[dependencies]
anyhow = "1"
argon2 = "*"
axum = "0.8"
chrono = { version = "0.4", features = ["serde"] }
deadpool-redis = "*"
dotenvy = "*"
hex = "*"
jsonwebtoken = "9"
opentelemetry = "*"
opentelemetry-otlp = { version = "*", features = ["grpc-tonic", "metrics"] }
opentelemetry_sdk = { version = "*", features = ["rt-tokio", "metrics"] }
opentelemetry-semantic-conventions = "*"
redis = { version = "*", features = ["aio", "tokio-comp"] }
regex = "1"
serde = { version = "1", features = ["derive"] }
serde_json = "1"
sha2 = "*"
sqlx = { version = "0.8", default-features = false, features = ["runtime-tokio", "postgres", "uuid", "chrono", "migrate"] }
thiserror = "*"
tokio = { version = "1", features = ["macros", "rt-multi-thread", "net"] }
tower-http = { version = "*", features = ["trace", "cors"] }
tracing = "*"
tracing-subscriber = { version = "*", features = ["env-filter"] }
uuid = { version = "1", features = ["v4", "serde"] }
validator = { version = "*", features = ["derive"] }
