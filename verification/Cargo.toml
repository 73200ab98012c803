[package]
name = "argo_helm_updater"
version = "0.1.0"
edition = "2021"
publish = false

[dependencies]
versions = "=8.0.1"
serde_json = "=1.0.151"
serde = { version = "*", features = ["derive"] }
serde_yaml = "*"
reqwest = { version = "*", default-features = false, features = ["blocking", "rustls-tls"] }
kube = { version = "=3.1.0", features = ["derive"] }
kube-derive = "=3.1.0"
k8s-openapi = { version = "=0.27.1", features = ["latest"] }
schemars = "*"
chrono = { version = "*", features = ["serde"] }
clap = { version = "*", features = ["derive"] }
inquire = "*"
env_logger = "*"
log = "*"
tokio = { version = "*", features = ["macros", "rt-multi-thread"] }
anyhow = "*"
