[package]
name = "blindpass_store"
version = "0.1.0"
edition = "2021"
publish = false

[dependencies]
base64 = "=0.22.1"
rand = "=0.8.8"
serde = { version = "=1.0.229", features = ["derive"] }
serde_json = "=1.0.154"
sqlx = { version = "=0.8.6", default-features = false, features = ["any", "runtime-tokio", "sqlite", "postgres"] }
tokio = { version = "=1.54.1", features = ["rt-multi-thread", "time", "macros", "sync"] }
tracing = "=0.1.44"
