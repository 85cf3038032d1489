[package]
name = "timegated"
version = "0.1.0"
edition = "2021"
publish = false

[dependencies]
uuid = { version = "0.8", features = ["v4"] }
chrono = "0.4"
mime = "0.3"
tree_magic_mini = "3"
axum = { version = "0.3", features = ["multipart"] }
sea-orm = { version = "0.4", features = ["sqlx-postgres", "runtime-tokio-rustls", "macros"] }
tokio = { version = "1", features = ["full"] }
tower-http = { version = "0.1", features = ["fs", "trace"] }
dotenv = "0.15"
tracing-subscriber = { version = "0.3", features = ["env-filter"] }
