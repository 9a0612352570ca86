[package]
name = "chronicle-feeder"
version = "0.1.0"
edition = "2021"
publish = false

[dependencies]
axum = { version = "=0.8.9", default-features = false, features = ["http1", "json", "tokio"] }
rustls = { version = "=0.23.46", default-features = false, features = ["ring", "std"] }
serde = { version = "1", features = ["derive"] }
serenity = { version = "=0.12.5", default-features = false, features = ["client", "gateway", "model", "rustls_backend", "voice"] }
songbird = { version = "=0.5.0", features = ["receive"] }
tokio = { version = "1", features = ["macros", "net", "rt-multi-thread", "sync"] }
tracing = "0.1"
tracing-subscriber = { version = "0.3", features = ["env-filter"] }
