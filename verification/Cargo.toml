[package]
name = "manager_bot"
version = "0.1.0"
edition = "2021"
publish = false

[dependencies]
serenity = { version = "0.12", default-features = false, features = ["builder", "cache", "chrono", "client", "gateway", "model", "http", "utils", "rustls_backend"] }
tokio = { version = "1", features = ["macros", "rt-multi-thread", "signal", "time"] }
dotenvy = "0.15"
serde = { version = "1", features = ["derive"] }
serde_json = "1"
