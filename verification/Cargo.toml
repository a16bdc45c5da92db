[package]
name = "local_agent"
version = "0.1.0"
edition = "2021"
publish = false

[dependencies]
async-channel = "2"
async-stream = "0.3"
futures = "0.3"
log = "0.4"
prost-types = "*"
reqwest = { version = "0.12", default-features = false, features = ["json", "stream", "rustls-tls"] }
serde = { version = "1", features = ["derive"] }
serde_json = "1"
thiserror = "*"
tokio = { version = "1", features = ["rt"] }
uuid = { version = "1", features = ["v4"] }
