[package]
name = "replay"
version = "0.1.0"
edition = "2021"
publish = false

[dependencies]
async-trait = "0.1"
axum = { version = "0.6", features = ["headers"] }
axum-extra = { version = "0.7", features = ["cookie"] }
chrono = { version = "0.4", features = ["serde"] }
dotenv = "0.15"
jsonwebtoken = "8"
r2d2 = "0.8"
redis = { version = "0.23", features = ["r2d2"] }
reqwest = { version = "0.11", default-features = false, features = ["json", "rustls-tls"] }
rs-snowflake = "0.6"
serde = { version = "1", features = ["derive"] }
serde_json = { version = "1", features = ["preserve_order"] }
sqlx = { version = "0.7", default-features = false, features = ["runtime-tokio", "tls-rustls", "postgres", "chrono"] }
thiserror = "1"
tokio = { version = "1", features = ["full"] }
tower-http = { version = "0.4", features = ["cors"] }
tracing = "0.1"
tracing-subscriber = "0.3"
url = "2"
validator = "0.16"
