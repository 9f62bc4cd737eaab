[package]
name = "tauri_webdriver"
version = "0.1.0"
edition = "2021"
publish = false

[dependencies]
uuid = { version = "1", features = ["v4"] }
serde = { version = "1", features = ["derive"] }
serde_json = "1"
axum = "0.8"
tokio = { version = "1", features = ["rt-multi-thread", "net", "time", "sync", "macros"] }
async-trait = "0.1"
tracing = "0.1"
base64 = "0.22"
tauri = { version = "2", default-features = false }
