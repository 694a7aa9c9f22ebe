[package]
name = "trustybox"
version = "0.1.0"
edition = "2021"
publish = false

[dependencies]
aes = "0.8"
base64 = "0.21"
rand = "0.8"
uuid = { version = "1", features = ["v4"] }
axum = { version = "0.6", features = ["multipart"] }
tokio = { version = "1", features = ["full"] }
mongodb = "2"
serde = { version = "1", features = ["derive"] }
futures = "0.3"
dotenv = "0.15"
tower-http = { version = "0.4", features = ["cors"] }
tracing = "0.1"
