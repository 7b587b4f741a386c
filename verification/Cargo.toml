[package]
name = "alert_deleter"
version = "0.1.0"
edition = "2021"
publish = false

[dependencies]
anyhow = "=1.0.104"
clap = { version = "=4.6.7", features = ["derive", "env"] }
k8s-openapi = { version = "=0.28.0", features = ["latest"] }
kube = "=4.2.0"
kube-leader-election = "=0.44.0"
log = "0.4"
reqwest = { version = "=0.12.28", default-features = false, features = ["json", "rustls-tls"] }
serde = { version = "1", features = ["derive"] }
simple_logger = "=5.2.0"
tokio = { version = "=1.54.1", features = ["full"] }
