[package]
name = "gdqbot"
version = "0.1.0"
edition = "2021"
publish = false

[dependencies]
dotenvy = "=0.15.7"
reqwest = { version = "=0.13.5", default-features = false, features = ["rustls", "http2", "charset"] }
serenity = { version = "=0.12.5", default-features = false, features = ["builder", "http", "model", "rustls_backend"] }
tokio = { version = "=1.53.2", features = ["macros", "rt-multi-thread", "time"] }
tracing = "=0.1.44"
tracing-subscriber = "=0.3.23"
twitch_api = { version = "=0.8.0", features = ["helix", "reqwest"] }
