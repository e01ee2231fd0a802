[package]
name = "tracedecay_status"
version = "0.1.0"
edition = "2021"
publish = false

[dependencies]
serde = { version = "1", features = ["derive"] }
serde_json = "1"
schemars = "*"
tokio = { version = "1", features = ["rt", "time", "net", "macros"] }
axum = "0.8"
tower = { version = "0.5", features = ["util"] }
tracing = "0.1"
