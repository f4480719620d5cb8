[package]
name = "pixum"
version = "0.1.0"
edition = "2021"
publish = false

[dependencies]
ahash = { version = "=0.8.12", features = ["serde"] }
axum = "=0.6.20"
axum-extra = "=0.7.7"
bytes = "=1.12.1"
deadpool-redis = "=0.14.0"
futures = "=0.3.34"
mime_guess = "=2.0.5"
reqwest = { version = "=0.11.27", default-features = false, features = ["json", "rustls-tls"] }
serde = { version = "=1.0.229", features = ["derive"] }
tokio = { version = "=1.54.1", features = ["macros", "rt-multi-thread"] }
tower = { version = "=0.4.13", features = ["buffer", "limit", "timeout", "util"] }
tower-http = { version = "=0.4.4", features = ["compression-gzip", "set-header", "util"] }
