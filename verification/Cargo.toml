[package]
name = "mist_media"
version = "0.1.0"
edition = "2021"
publish = false

[dependencies]
base64 = "0.13"
imagesize = "0.11"
mime = "0.3"
uuid = { version = "1", features = ["v4"] }
bytes = "1"
serde = { version = "1", features = ["derive"] }
serde_json = "1"
reqwest = { version = "0.11", default-features = false, features = ["json", "rustls-tls"] }
tokio = { version = "1", features = ["rt", "time", "macros", "sync"] }
tokio-retry = "0.3"
futures = "0.3"
tracing = "0.1"
sqlx = { version = "0.6", default-features = false, features = ["runtime-tokio-rustls", "postgres", "json"] }
validator = { version = "0.16", features = ["derive"] }
