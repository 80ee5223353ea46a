[package]
name = "access_gatekeeper"
version = "0.1.0"
edition = "2021"
publish = false

[dependencies]
axum = { version = "=0.6.20", features = ["headers"] }
clap = { version = "=4.6.7", features = ["derive", "env"] }
jsonwebtoken = "=8.3.0"
reqwest = { version = "=0.11.27", default-features = false, features = ["json", "rustls-tls"] }
serde = { version = "=1.0.229", features = ["derive"] }
serde_json = "=1.0.154"
tokio = { version = "=1.54.1", features = ["macros", "rt-multi-thread", "sync", "time"] }
tower-http = { version = "=0.4.4", features = ["trace"] }
tracing = "=0.1.44"
tracing-subscriber = { version = "=0.3.23", features = ["env-filter"] }

[dev-dependencies]
base64 = "=0.21.7"
rand = "=0.8.8"
rsa = "=0.9.10"
