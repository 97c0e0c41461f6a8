[package]
name = "vibe_kanban_core"
version = "0.1.0"
edition = "2021"
publish = false

[dependencies]
serde = { version = "1", features = ["derive"] }
serde_json = "1"
uuid = { version = "1", features = ["v4", "serde"] }
chrono = { version = "0.4", features = ["serde"] }
axum = "0.8"
sqlx = { version = "0.8", default-features = false, features = ["sqlite", "runtime-tokio", "chrono", "uuid", "macros"] }
tracing = "0.1"
thiserror = "2"
moka = { version = "0.12", features = ["future"] }
futures-util = "0.3"
ts-rs = "*"
