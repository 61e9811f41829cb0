[package]
name = "letterboxd_diff"
version = "0.1.0"
edition = "2021"
publish = false

[dependencies]
anyhow = "1"
askama = "0.12"
deadpool-redis = "0.18"
futures = "0.3"
governor = "0.6"
lazy_static = "1"
reqwest = { version = "0.12", default-features = false, features = ["gzip", "json", "rustls-tls"] }
scraper = "0.22"
sentry = { version = "0.36", default-features = false, features = ["backtrace", "contexts", "panic", "reqwest", "rustls"] }
sentry-panic = "0.36"
serde = { version = "1", features = ["derive"] }
serde_json = "1"
thiserror = "1"
tokio = { version = "1", features = ["macros", "rt-multi-thread", "time"] }
tracing = "0.1"
tracing-subscriber = "0.3"
warp = "0.3"
