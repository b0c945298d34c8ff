[package]
name = "backend"
version = "0.1.0"
edition = "2021"
publish = false

[dependencies]
axum = "*"
thiserror = "*"
tokio = { version = "*", features = ["macros", "rt-multi-thread", "net", "time", "io-util"] }
tower-http = { version = "*", features = ["trace"] }
tracing = "*"
tracing-subscriber = "*"

[dev-dependencies]
tower = { version = "*", features = ["util"] }
