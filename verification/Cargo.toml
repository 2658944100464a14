[package]
name = "photobooth"
version = "0.1.0"
edition = "2021"
publish = false

[dependencies]
async-trait = "=0.1.92"
axum = "=0.7.9"
axum-embed = "=0.1.0"
axum-server = { version = "=0.8.0", features = ["tls-rustls"] }
chrono = "=0.4.45"
image = { version = "=0.25.10", default-features = false, features = ["jpeg", "png"] }
printers = "=2.3.0"
rscam = "=0.5.5"
rust-embed = { version = "=8.13.0", features = ["include-exclude", "interpolate-folder-path"] }
serde = { version = "=1.0.229", features = ["derive"] }
serde_json = "=1.0.154"
thiserror = "=1.0.69"
tokio = { version = "=1.54.1", features = ["full"] }
tower-http = { version = "=0.7.1", features = ["fs"] }
tracing = "=0.1.44"
tracing-subscriber = { version = "=0.3.23", features = ["env-filter"] }
uuid = { version = "=1.29.0", features = ["v4"] }
