[package]
name = "binrs"
version = "0.1.0"
edition = "2021"
publish = false

[dependencies]
nanoid = "*"
mime_guess = "*"
axum = "*"
tokio = { version = "*", features = ["rt-multi-thread", "macros", "net", "signal"] }
futures = "*"
redis = "*"
serde = { version = "*", features = ["derive"] }
tower-http = { version = "*", features = ["cors", "trace"] }
tracing = "*"
tracing-subscriber = { version = "*", features = ["env-filter", "fmt"] }
