[package]
name = "ai_toolkit"
version = "0.1.0"
edition = "2021"
publish = false

[dependencies]
anyhow = "=1.0.104"
argon2 = "=0.5.3"
axum = { version = "=0.7.9", features = ["multipart"] }
axum-extra = { version = "=0.9.6", features = ["cookie"] }
calamine = "=0.23.1"
chrono = "=0.4.45"
cookie = "=0.18.2"
docx-rs = "=0.4.22"
dotenvy = "=0.15.7"
futures = "=0.3.34"
pdf-extract = "=0.7.12"
quick-xml = "=0.36.2"
rand_core = { version = "=0.6.4", features = ["getrandom"] }
reqwest = { version = "=0.12.28", default-features = false, features = ["json", "multipart", "rustls-tls"] }
rust_xlsxwriter = "=0.79.4"
sanitize-filename = "=0.5.0"
serde = { version = "=1.0.229", features = ["derive"] }
serde_json = "=1.0.154"
sqlx = { version = "=0.8.6", default-features = false, features = ["runtime-tokio", "postgres", "uuid", "chrono", "macros", "migrate", "json"] }
tokio = { version = "=1.54.1", features = ["full"] }
tracing = "=0.1.44"
tracing-subscriber = { version = "=0.3.23", features = ["env-filter"] }
uuid = { version = "=1.29.0", features = ["v4", "serde"] }
zip = "=2.6.1"

[dev-dependencies]
tempfile = "=3.27.0"
