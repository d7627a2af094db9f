[package]
name = "nikon_bulb_server"
version = "0.1.0"
edition = "2021"
publish = false

[dependencies]
async-trait = "0.1"
axum = "0.7"
chrono = { version = "0.4", features = ["serde"] }
gphoto2 = "3"
rusqlite = { version = "0.31", features = ["bundled"] }
serde = { version = "1", features = ["derive"] }
serde_json = "1"
sha2 = "0.10"
thiserror = "1"
tokio = { version = "1", features = ["full"] }
tokio-util = { version = "0.7", features = ["io"] }
tower-http = { version = "0.5", features = ["cors", "request-id", "timeout", "trace", "util"] }
tracing = "0.1"
utoipa = { version = "4", features = ["chrono"] }
uuid = { version = "1", features = ["v4"] }
