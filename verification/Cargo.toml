[package]
name = "conduit"
version = "0.1.0"
edition = "2021"
publish = false

[dependencies]
sha2 = "0.10"
unicode-width = "0.2"
uuid = { version = "1", features = ["v7"] }
chrono = "0.4"
anyhow = "1"
thiserror = "1"
serde = { version = "1", features = ["derive"] }
serde_json = "1"
tokio = { version = "1", features = ["rt-multi-thread", "sync", "time", "macros"] }
crossterm = "0.28"
ratatui = "0.29"
axum = "0.8"
arboard = "3"
image = { version = "0.25", default-features = false, features = ["png"] }
tempfile = "3"
tracing = "0.1"
tracing-subscriber = { version = "0.3", features = ["env-filter"] }
