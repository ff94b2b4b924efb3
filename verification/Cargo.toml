[package]
name = "axum_web"
version = "0.1.0"
edition = "2021"
publish = false

[dependencies]
jsonwebtoken = { version = "=11.1.0", features = ["rust_crypto"] }
chrono = "=0.4.45"
serde_json = "=1.0.151"
serde = { version = "=1.0.229", features = ["derive"] }
axum = "=0.8.9"
hyper = "=1.12.0"
tokio = { version = "=1.53.2", features = ["macros", "rt-multi-thread", "signal", "net"] }
tower-http = { version = "=0.7.1", features = ["cors"] }
uuid = { version = "=1.27.0", features = ["v4"] }
