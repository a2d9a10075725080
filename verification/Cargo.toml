[package]
name = "email_serve"
version = "0.1.0"
edition = "2021"
publish = false

[dependencies]
lettre = { version = "*", default-features = false, features = ["smtp-transport", "builder", "hostname", "pool", "rustls-tls", "tokio1", "tokio1-rustls-tls"] }
serde = { version = "*", features = ["derive"] }
serde_json = "*"
axum = "*"
tokio = { version = "*", features = ["macros", "rt-multi-thread", "signal", "sync", "net"] }
tower-http = { version = "*", features = ["trace"] }
tracing = "*"
tracing-subscriber = { version = "*", features = ["fmt", "json", "time", "local-time"] }
time = { version = "*", features = ["formatting", "local-offset"] }
