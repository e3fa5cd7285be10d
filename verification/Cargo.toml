[package]
name = "valqeron"
version = "0.1.0"
edition = "2021"
publish = false

[dependencies]
anyhow = "1"
chrono = "=0.4.45"
clap = { version = "4", features = ["derive", "env"] }
directories = "*"
hyper-util = { version = "*", features = ["tokio"] }
prost-types = "*"
serde = { version = "=1.0.229", features = ["derive"] }
serde_json = "=1.0.154"
tokio = { version = "1", features = ["rt", "net", "macros"] }
tonic = "*"
tower = { version = "*", features = ["util"] }
tracing = "0.1"
tracing-appender = "*"
tracing-subscriber = { version = "0.3", features = ["env-filter", "json"] }
uuid = { version = "=1.29.0", features = ["v7"] }
