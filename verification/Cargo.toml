[package]
name = "hermes"
version = "0.1.0"
edition = "2021"
publish = false

[dependencies]
chrono = { version = "0.4", default-features = false, features = ["clock"] }
permutation = "0.4"
sea-orm = { version = "*", default-features = false }
tokio = { version = "1", features = ["rt", "sync", "time"] }
tracing = "0.1"
