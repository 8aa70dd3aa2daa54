[package]
name = "joinsound"
version = "0.1.0"
edition = "2021"
publish = false

[dependencies]
serenity = { version = "0.10", default-features = false, features = ["client", "gateway", "rustls_backend", "model", "framework", "standard_framework", "voice", "cache"] }
songbird = "0.2"
tokio = { version = "1", features = ["macros", "rt", "fs", "io-util", "signal"] }
tracing = "0.1"
tracing-subscriber = { version = "0.3", features = ["env-filter", "fmt"] }
