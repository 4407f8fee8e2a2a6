[package]
name = "matrix_bot_test"
version = "0.1.0"
edition = "2021"
publish = false

[dependencies]
anyhow = "=1.0.104"
dotenvy = "=0.15.7"
futures-util = "=0.3.34"
matrix-sdk = { version = "=0.14.0", default-features = false, features = ["e2e-encryption", "sqlite", "rustls-tls"] }
serde = { version = "=1.0.229", features = ["derive"] }
serde_json = "=1.0.154"
tokio = { version = "=1.54.1", features = ["macros", "rt-multi-thread", "fs", "time"] }
tracing = "=0.1.44"
tracing-subscriber = { version = "=0.3.23", default-features = false, features = ["fmt", "ansi"] }
