[package]
name = "easy_workflow"
version = "0.1.0"
edition = "2021"
publish = false

[dependencies]
x509-parser = "*"
tonic = { version = "0.12", features = ["tls"] }
prost = "0.13"
tokio = { version = "1", features = ["full"] }
clap = { version = "4", features = ["derive"] }
serde = { version = "1", features = ["derive"] }
serde_json = "1"
anyhow = "1"
metrics = "*"
metrics-exporter-prometheus = "*"
rand = "0.9"
tracing = "0.1"
tracing-subscriber = { version = "0.3", features = ["env-filter", "json"] }
