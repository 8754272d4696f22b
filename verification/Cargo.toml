[package]
name = "inventarium"
version = "0.1.0"
edition = "2021"
publish = false

[dependencies]
jsonwebtoken = "9"
argon2 = { version = "0.5", features = ["std"] }
chrono = "0.4"
uuid = { version = "1", features = ["v4"] }
serde = { version = "1", features = ["derive"] }
serde_json = { version = "1", features = ["raw_value"] }
anyhow = "1"
thiserror = "2"
log = "0.4"
tokio = { version = "1", features = ["macros", "rt-multi-thread"] }
poem = "3"
poem-openapi = { version = "5", features = ["swagger-ui"] }
sqlx = { version = "0.8", default-features = false, features = ["sqlite", "runtime-tokio", "chrono", "migrate", "macros"] }
tracing-subscriber = "0.3"
