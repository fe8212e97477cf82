[package]
name = "events_service"
version = "0.1.0"
edition = "2021"
publish = false

[dependencies]
axum = "0.7"
dotenvy = "*"
jiff = "*"
opentelemetry = "*"
opentelemetry-otlp = "*"
opentelemetry_sdk = "*"
reqwest = { version = "*", default-features = false, features = ["json"] }
serde = { version = "1", features = ["derive"] }
serde_json = "1"
thiserror = "*"
tokio = { version = "1", features = ["macros", "net", "rt-multi-thread", "signal"] }
tower-http = { version = "*", features = ["trace"] }
tracing = "0.1"
tracing-opentelemetry = "*"
tracing-subscriber = "*"
uuid = { version = "1", features = ["v4"] }
