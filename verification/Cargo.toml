[package]
name = "archiiv"
version = "0.1.0"
edition = "2021"
publish = false

[dependencies]
totp-rs = { version = "5", features = ["gen_secret", "otpauth", "serde_support"] }
rand = "0.8"
chrono = { version = "0.4", features = ["serde"] }
serde = { version = "1", features = ["derive"] }
serde_json = "1"
tokio = { version = "1", features = ["fs", "io-util", "macros", "rt-multi-thread", "signal", "sync", "time"] }
tokio-util = { version = "0.7", features = ["io"] }
futures-util = "0.3"
axum = "0.6"
tower-http = { version = "0.4", features = ["cors", "catch-panic"] }
mime_guess = "2"
