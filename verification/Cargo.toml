[package]
name = "musay"
version = "0.1.0"
edition = "2021"
publish = false

[dependencies]
url = "2"
rand = "0.8"
serde = { version = "1", features = ["derive"] }
serde_json = "1"
thiserror = "1"
tokio = { version = "1", features = ["macros", "rt-multi-thread", "sync", "fs", "process", "signal", "time"] }
async-trait = "0.1"
tracing = "0.1"
tracing-subscriber = { version = "0.3", default-features = false, features = ["fmt", "env-filter"] }
dotenvy = "0.15"
rpassword = "7"
reqwest = { version = "0.12", default-features = false, features = ["rustls-tls"] }
serenity = { version = "0.12.5", default-features = false, features = ["client", "gateway", "model", "http", "cache", "voice", "rustls_backend"] }
