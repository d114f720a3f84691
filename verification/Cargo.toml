[package]
name = "track_store"
version = "0.1.0"
edition = "2021"
publish = false

[dependencies]
rusqlite = { version = "*", features = ["bundled", "chrono"] }
chrono = "*"
serde = { version = "1", features = ["derive"] }
axum = "*"
anyhow = "1"
tracing = "*"
