[package]
name = "backend_rust"
version = "0.1.0"
edition = "2021"
publish = false

[dependencies]
sqlx = { version = "=0.8.6", default-features = false, features = ["postgres", "runtime-tokio", "chrono", "uuid", "rust_decimal", "json"] }
uuid = { version = "=1.29.0", features = ["v4", "serde"] }
chrono = { version = "=0.4.45", features = ["serde"] }
rust_decimal = "=1.43.0"
rand = "=0.10.3"
totp-rs = { version = "=5.7.2", features = ["gen_secret"] }
serde = { version = "=1.0.229", features = ["derive"] }
serde_json = "=1.0.154"
serde_qs = "=1.1.3"
tokio = { version = "=1.54.1", features = ["macros", "rt-multi-thread", "sync", "time", "net", "signal"] }
axum = "=0.8.9"
reqwest = { version = "=0.12.28", default-features = false, features = ["json"] }
thiserror = "=2.0.21"
async-trait = "=0.1.92"
bcrypt = "=0.19.3"
dotenvy = "=0.15.7"
envy = "=0.4.2"
tracing = "=0.1.44"
tower-http = { version = "=0.6.11", features = ["cors", "trace"] }
tracing-subscriber = { version = "0.3", features = ["env-filter", "json"] }
tracing-appender = "0.2"

[dev-dependencies]
