[package]
name = "fleet_addon"
version = "0.1.0"
edition = "2021"
publish = false

[dependencies]
actix-web = "=4.18.1"
anyhow = "=1.0.104"
base64 = "=0.23.1"
chrono = "=0.4.45"
clap = { version = "=4.6.7", features = ["derive"] }
cluster-api-rs = "=1.13.2"
fleet-api-rs = "=0.15.2"
futures = "=0.3.34"
jiff = "=0.2.38"
k8s-openapi = { version = "=0.27.1", features = ["latest"] }
kube = { version = "=3.1.0", features = ["runtime", "client", "derive", "unstable-runtime"] }
prometheus = "=0.14.0"
rand = "=0.10.3"
schemars = "=1.2.3"
serde = { version = "=1.0.229", features = ["derive"] }
serde_json = "=1.0.154"
serde_with = "=3.24.0"
thiserror = "=2.0.21"
tokio = { version = "=1.54.1", features = ["macros", "rt-multi-thread", "process", "sync", "time"] }
tracing = "=0.1.44"
