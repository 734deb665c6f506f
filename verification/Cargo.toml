[package]
name = "nowplaying"
version = "0.1.0"
edition = "2021"
publish = false

[dependencies]
sha1 = "=0.10.7"
sha2 = "=0.10.9"
tokio = { version = "=1.54.1", features = ["sync", "time", "macros", "rt-multi-thread"] }
redis = { version = "=1.8.0", features = ["tokio-comp"] }
reqwest = { version = "=0.12.28", features = ["json"] }
serde = { version = "=1.0.229", features = ["derive"] }
serde_json = "=1.0.154"
actix = "=0.13.5"
actix-web = { version = "=4.18.1", default-features = false, features = ["macros", "ws"] }
actix-web-actors = "4"
anyhow = "=1.0.104"
dotenvy = "=0.15.7"
tracing-subscriber = "=0.3.23"
