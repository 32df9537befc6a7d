[package]
name = "docbox_manager"
version = "0.1.0"
edition = "2021"
publish = false

[dependencies]
rand = "0.8"
anyhow = "1"
serde = { version = "1", features = ["derive"] }
axum = "0.8"
tokio = { version = "1", features = ["rt-multi-thread", "net", "macros", "signal", "time"] }
tower-http = { version = "0.6", features = ["trace"] }
tower-sessions = "0.14"
tracing = "0.1"
reqwest = { version = "0.12", default-features = false, features = ["stream"] }
http = "1"
futures = "0.3"
dotenvy = "0.15"
uuid = "1"
