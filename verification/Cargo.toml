[package]
name = "counsel"
version = "0.1.0"
edition = "2021"
publish = false

[dependencies]
serde = { version = "=1.0.229", features = ["derive"] }
serde_json = "=1.0.154"
tokio = { version = "=1.54.1", features = ["full"] }
axum = "=0.8.9"
reqwest = { version = "=0.12.28", default-features = false, features = ["json", "stream", "rustls-tls"] }
futures = "=0.3.34"
tracing = "=0.1.44"
tracing-subscriber = { version = "=0.3.23", features = ["env-filter"] }
anyhow = "=1.0.104"
thiserror = "=2.0.21"
chrono = "=0.4.45"
uuid = { version = "=1.29.0", features = ["v4"] }
async-trait = "=0.1.92"
tokio-stream = "=0.1.19"
bcrypt = "0.15"
jsonwebtoken = "9"
sqlx = { version = "0.8", default-features = false, features = ["runtime-tokio", "sqlite", "macros"] }
tower-http = { version = "0.6", features = ["cors", "fs"] }

[dev-dependencies]
tempfile = "=3.27.0"
