[package]
name = "chat_gateway"
version = "0.1.0"
edition = "2021"
publish = false

[dependencies]
axum = { version = "=0.8.9", features = ["ws"] }
futures-util = "=0.3.34"
serde = { version = "=1.0.229", features = ["derive"] }
serde_json = { version = "=1.0.154", features = ["preserve_order"] }
tokio = { version = "=1.54.1", features = ["rt-multi-thread", "macros", "sync", "net"] }
tracing = "=0.1.44"
ulid = "=3.0.0"
uuid = { version = "=1.29.0", features = ["v4"] }
