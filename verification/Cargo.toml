[package]
name = "mysten_infra"
version = "0.1.0"
edition = "2021"
publish = false

[dependencies]
tokio = { version = "=1.54.1", features = ["full"] }
tokio-util = { version = "=0.7.20", features = ["codec"] }
bytes = "=1.12.1"
futures = "=0.3.34"
parking_lot = "=0.12.5"
tower = { version = "=0.4.13", features = ["util"] }
tracing = "=0.1.44"
quinn = "=0.8.5"
quinn-proto = "=0.8.4"
rustls = { version = "=0.20.9", features = ["dangerous_configuration"] }
rcgen = "=0.9.3"
x509-parser = "=0.13.2"
ed25519-dalek = "=1.0.1"
ed25519 = { version = "=1.5.3", features = ["pkcs8", "alloc"] }
pkcs8 = { version = "=0.9.0", features = ["alloc"] }
anyhow = "=1.0.104"
async-trait = "=0.1.92"
backoff = { version = "=0.4.0", features = ["tokio"] }
serde = { version = "=1.0.229", features = ["derive"] }
chrono = "=0.4.45"
prometheus = "=0.13.4"
tracing-subscriber = { version = "=0.3.23", features = ["env-filter"] }
tracing-appender = "=0.2.5"
tracing-bunyan-formatter = "=0.3.11"
opentelemetry = { version = "=0.19.0", features = ["rt-tokio"] }
opentelemetry-jaeger = { version = "=0.18.0", features = ["rt-tokio"] }
tracing-opentelemetry = "=0.19.0"
syn = { version = "1", features = ["full"] }
quote = "1"
proc-macro2 = "1"
