[package]
name = "svc_assets"
version = "0.1.0"
edition = "2021"
publish = false

[dependencies]
uuid = { version = "=1.29.0", features = ["v4", "serde"] }
prost-types = "=0.11.9"
chrono = { version = "=0.4.45", features = ["serde"] }
svc-storage-client-grpc = "=0.2.0"
tonic = "=0.8.3"
axum = "=0.6.20"
hyper = "=0.14.32"
serde = { version = "=1.0.229", features = ["derive"] }
tokio = { version = "=1.54.1", features = ["macros", "rt-multi-thread", "sync"] }
