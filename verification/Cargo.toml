[package]
name = "golf_booker"
version = "0.1.0"
edition = "2021"
publish = false

[dependencies]
anyhow = "=1.0.104"
askama = "=0.16.1"
axum = "=0.8.9"
axum-login = "=0.18.0"
chrono = { version = "=0.4.45", features = ["serde"] }
chrono-tz = "=0.10.4"
dotenvy = "=0.15.7"
hex = "=0.4.3"
html-escape = "=0.2.15"
lettre = { version = "=0.11.23", default-features = false, features = ["builder", "smtp-transport", "tokio1", "tokio1-rustls-tls"] }
password-auth = "=1.0.0"
quick-xml = { version = "=0.42.0", features = ["serialize"] }
rand = "=0.8.8"
reqwest = { version = "=0.13.5", features = ["cookies", "form"] }
reqwest_cookie_store = "=0.10.0"
serde = { version = "=1.0.229", features = ["derive"] }
serde_json = "=1.0.154"
sha2 = "=0.10.9"
sqlx = { version = "=0.8.6", features = ["runtime-tokio", "sqlite", "migrate", "macros"] }
tokio = { version = "=1.54.1", features = ["full"] }
tower-http = { version = "=0.6.11", features = ["fs", "trace"] }
tower-sessions = "=0.14.0"
tower-sessions-sqlx-store = { version = "=0.15.0", features = ["sqlite"] }
tracing = "=0.1.44"
tracing-subscriber = { version = "=0.3.23", features = ["env-filter"] }
