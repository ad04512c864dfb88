[package]
name = "prismoid"
version = "0.0.2"
edition = "2021"
publish = false

[dependencies]
chrono = { version = "=0.4.45", default-features = false, features = ["clock"] }
dotenvy = "=0.15.7"
reqwest = { version = "=0.13.5", default-features = false, features = ["rustls"] }
serde = { version = "1", features = ["derive"] }
serde_json = "=1.0.154"
tokio = { version = "=1.54.1", features = ["sync", "time"] }
tracing = "0.1"
tracing-subscriber = { version = "0.3", features = ["env-filter"] }
twitch_oauth2 = { version = "=0.17.1", default-features = false, features = ["client", "reqwest"] }
