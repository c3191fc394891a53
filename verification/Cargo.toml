[package]
name = "control_plane"
version = "0.1.0"
edition = "2021"
publish = false

[dependencies]
axum = { version = "=0.7.9", features = ["ws"] }
bytes = "=1.12.1"
chrono = "=0.4.45"
futures = "=0.3.34"
once_cell = "=1.21.4"
rusqlite = { version = "=0.41.0", features = ["bundled"] }
serde = { version = "=1.0.229", features = ["derive"] }
serde_json = "=1.0.154"
tokio = { version = "=1.54.1", features = ["macros", "net", "rt-multi-thread"] }
tracing = "=0.1.44"
uuid = { version = "=1.29.0", features = ["v4"] }
