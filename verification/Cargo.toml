[package]
name = "tracing_forest"
version = "0.1.0"
edition = "2021"
publish = false

[dependencies]
chrono = { version = "=0.4.45", features = ["serde"] }
serde = { version = "=1.0.229", features = ["derive"] }
tracing = "=0.1.44"
uuid = { version = "=1.27.0", features = ["serde"] }
