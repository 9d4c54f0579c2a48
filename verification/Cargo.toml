[package]
name = "nowhear"
version = "0.4.1"
edition = "2021"
publish = false

[dependencies]
base64 = "0.22"
futures = "0.3"
serde = { version = "1", features = ["derive"] }
serde_json = "1"
thiserror = "2"
tokio = { version = "1", features = ["macros", "rt", "rt-multi-thread", "sync", "time"] }
tokio-stream = "0.1"
tracing = "0.1"
zbus = { version = "5", default-features = false, features = ["tokio"] }
