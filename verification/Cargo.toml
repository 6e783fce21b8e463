[package]
name = "stray"
version = "0.1.0"
edition = "2021"
publish = false

[dependencies]
anyhow = "1"
chrono = { version = "0.4", default-features = false, features = ["clock"] }
dirs = "4"
linicon = "2"
serde = { version = "1", features = ["derive"] }
serde_json = "1"
tera = { version = "1", default-features = false }
thiserror = "1"
tokio = { version = "1", features = ["rt-multi-thread", "macros", "sync", "process"] }
tokio-stream = "0.1"
tracing = "0.1"
zbus = { version = "3", default-features = false, features = ["tokio"] }
