[package]
name = "session_auth"
version = "0.1.0"
edition = "2021"
publish = false

[dependencies]
axum = "0.7"
axum-extra = { version = "0.9", features = ["typed-header"] }
chrono = { version = "0.4", features = ["serde"] }
constant_time_eq = "0.3"
deadpool-diesel = { version = "0.6", features = ["postgres"] }
diesel = { version = "2.1", features = ["postgres", "uuid"] }
dotenvy = "0.15"
env_logger = "0.11"
headers = "0.4"
oauth2 = "4.4"
reqwest = "0.11"
serde = { version = "1", features = ["derive"] }
serde_json = "1"
tokio = { version = "1", features = ["full"] }
tracing = { version = "0.1", features = ["log"] }
uuid = { version = "1", features = ["v4", "serde"] }
