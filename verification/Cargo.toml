[package]
name = "static_inject"
version = "0.1.0"
edition = "2021"
publish = false

[dependencies]
axum = "*"
serde = "*"
serde_json = "*"
validator = "*"
tower-layer = "*"
tower-service = "*"
tracing = "*"
async-trait = "*"

[dev-dependencies]
base64 = "*"
