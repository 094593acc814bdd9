[package]
name = "portfolio"
version = "0.1.0"
edition = "2021"
publish = false

[dependencies]
validator = "=0.21.0"
axum = "=0.8.9"
tokio = { version = "=1.53.2", features = ["full"] }
sqlx = { version = "=0.9.0", default-features = false, features = ["runtime-tokio", "postgres", "chrono", "json", "derive", "migrate"] }
serde = { version = "=1.0.229", features = ["derive"] }
serde_json = "=1.0.151"
chrono = { version = "=0.4.45", features = ["serde"] }
tera = { version = "=2.4.0", features = ["glob_fs"] }
tower-http = { version = "=0.7.1", features = ["cors", "compression-full", "fs", "trace"] }
dotenvy = "=0.15.7"
anyhow = "=1.0.104"
tracing = "=0.1.44"
tracing-subscriber = { version = "=0.3.23", features = ["env-filter"] }
