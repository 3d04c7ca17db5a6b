[package]
name = "kiro-rs"
version = "0.1.0"
edition = "2021"
publish = false

[dependencies]
anyhow = "1"
axum = { version = "0.8", default-features = false, features = ["json", "tokio", "http1"] }
chrono = { version = "0.4", default-features = false, features = ["clock", "std", "alloc"] }
http = "1"
httpdate = "1"
parking_lot = "0.12"
reqwest = { version = "0.12", default-features = false, features = ["json"] }
serde = { version = "1", features = ["derive"] }
serde_json = "1"
thiserror = "2"
tokio = { version = "1", features = ["rt", "sync", "time", "macros"] }
tower-http = { version = "0.6", features = ["cors"] }
tracing = "0.1"
urlencoding = "2"
uuid = { version = "1", features = ["v4"] }
