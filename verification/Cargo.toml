[package]
name = "planning_poker"
version = "0.1.0"
edition = "2021"
publish = false

[dependencies]
axum = { version = "=0.5.17", features = ["ws", "headers"] }
bastion = { version = "=0.4.5", features = ["tokio-runtime"] }
console-subscriber = "=0.1.10"
http = "=0.2.12"
lazy_static = "=1.5.1"
rand = "=0.8.8"
serde = { version = "=1.0.229", features = ["derive"] }
serde_json = "=1.0.154"
simple-error = "=0.2.3"
tokio = { version = "=1.54.1", features = ["full"] }
tower = { version = "=0.4.13", features = ["util"] }
tower-http = { version = "=0.3.5", features = ["compression-gzip", "fs", "sensitive-headers", "trace"] }
tracing = "=0.1.44"
tracing-subscriber = { version = "=0.3.23", features = ["env-filter", "json"] }
tracing-tree = "=0.2.5"
