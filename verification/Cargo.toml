[package]
name = "stateset_icp_handler"
version = "0.1.0"
edition = "2021"
publish = false

[dependencies]
anyhow = "1"
axum = "=0.7.9"
base64 = "=0.22.1"
bs58 = "=0.5.1"
chrono = "=0.4.45"
dotenvy = "0.15"
ed25519-dalek = { version = "=2.2.0", features = ["pkcs8", "rand_core"] }
hex = "=0.4.3"
lazy_static = "1"
prometheus = "0.13"
r2d2 = "0.8"
r2d2_sqlite = "=0.25.0"
rand = "=0.8.8"
redis = { version = "0.25", features = ["tokio-comp", "connection-manager"] }
reqwest = { version = "0.12", default-features = false, features = ["json", "rustls-tls"] }
rusqlite = { version = "=0.32.1", features = ["bundled"] }
rust_decimal = "=1.43.0"
serde = { version = "1", features = ["derive"] }
serde_jcs = "0.1"
serde_json = "1"
sha2 = "=0.10.9"
stateset-core = "=1.40.0"
stateset-embedded = "=1.40.0"
tokio = { version = "1", features = ["full"] }
tokio-stream = { version = "0.1", features = ["sync"] }
tower-http = { version = "0.5", features = ["cors", "trace", "limit"] }
tracing = "0.1"
tracing-subscriber = { version = "0.3", features = ["env-filter", "json"] }
utoipa = "4"
uuid = { version = "=1.29.0", features = ["v4"] }
