[package]
name = "api"
version = "0.1.0"
edition = "2021"
publish = false

[dependencies]
jsonwebtoken = "=9.3.1"
serde = { version = "=1.0.229", features = ["derive"] }
serde_json = { version = "=1.0.154", features = ["raw_value"] }
serde_urlencoded = "=0.7.1"
axum = "=0.8.9"
axum-extra = { version = "=0.10.3", features = ["cookie", "typed-header"] }
tokio = { version = "=1.54.1", features = ["rt-multi-thread", "macros", "net", "sync", "time"] }
reqwest = { version = "=0.12.28", default-features = false, features = ["json"] }
config = { version = "=0.15.27", default-features = false, features = ["json"] }
tracing = "=0.1.44"
tracing-subscriber = { version = "=0.3.23", features = ["env-filter"] }
utoipa = "=5.5.0"
utoipa-axum = "=0.2.0"
tower-http = { version = "=0.6.11", features = ["trace"] }
