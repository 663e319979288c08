[package]
name = "nlpf_2"
version = "0.1.0"
edition = "2021"
publish = false

[dependencies]
askama = { version = "=0.11.1", features = ["with-axum"] }
askama_axum = "=0.1.0"
async-redis-session = "=0.2.2"
async-session = "=3.0.0"
aws-config = "=0.51.0"
aws-sdk-s3 = "=0.21.0"
axum = { version = "=0.5.17", features = ["multipart", "headers"] }
bcrypt = "=0.13.0"
config = "=0.13.4"
neo4rs = "0.6"
serde = { version = "=1.0.229", features = ["derive"] }
serde_with = "=2.3.3"
tokio = { version = "=1.54.1", features = ["full"] }
tower-http = { version = "=0.3.5", features = ["trace"] }
tracing = "=0.1.44"
tracing-subscriber = { version = "=0.3.23", features = ["env-filter"] }
uuid = { version = "=1.29.0", features = ["v4"] }
