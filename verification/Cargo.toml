[package]
name = "nyxx"
version = "0.1.0"
edition = "2021"
publish = false

[dependencies]
serde = { version = "=1.0.229", features = ["derive"] }
serde_json = "=1.0.154"
url = "=2.5.8"
base64 = "=0.22.1"
image = "=0.25.10"
arboard = "=3.7.0"
rdev = "=0.5.3"
keyring = "=3.6.3"
reqwest = { version = "=0.12.28", default-features = false, features = ["json", "rustls-tls"] }
axum = "=0.7.9"
tokio = { version = "=1.54.1", features = ["rt-multi-thread", "macros", "sync", "time", "net"] }
tower-http = { version = "=0.5.2", features = ["cors"] }
log = "=0.4.35"
thiserror = "=1.0.69"
lazy_static = "=1.5.1"
