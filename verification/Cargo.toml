[package]
name = "inventory_service"
version = "0.1.0"
edition = "2021"
publish = false

[dependencies]
jsonwebtoken = { version = "=11.1.0", features = ["rust_crypto"] }
serde_json = "=1.0.151"
base64 = "=0.23.1"
axum = "=0.8.9"
tokio = { version = "=1.53.2", features = ["rt-multi-thread", "net", "macros", "sync"] }
serde = { version = "=1.0.229", features = ["derive"] }
