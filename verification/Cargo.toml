[package]
name = "healthkit"
version = "1.2.0"
edition = "2021"
publish = false

[dependencies]
axum = { version = "0.8", default-features = false, features = ["http1", "json", "tokio"] }
futures = { version = "0.3", default-features = false, features = ["std"] }
metrics = "0.24"
redis = { version = "0.32", default-features = false }
serde = { version = "1", features = ["derive"] }
sqlx = { version = "0.8", default-features = false, features = ["runtime-tokio"] }
thiserror = "2"
tokio = { version = "1", features = ["rt", "sync", "time"] }
