[package]
name = "pulsecore"
version = "0.1.0"
edition = "2021"
publish = false

[dependencies]
anyhow = "1"
chrono = { version = "0.4", features = ["serde"] }
regex = "1"
serde = { version = "1", features = ["derive"] }
serde_json = "1"
sqlx = { version = "0.8", default-features = false, features = ["sqlite", "runtime-tokio"] }
sysinfo = "0.33"
tokio = { version = "1", features = ["rt-multi-thread", "time", "process", "sync"] }
tracing = "0.1"
