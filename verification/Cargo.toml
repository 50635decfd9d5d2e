[package]
name = "kube_switchboard"
version = "0.1.0"
edition = "2021"
publish = false

[dependencies]
eframe = { version = "0.22", default-features = false, features = ["default_fonts", "glow"] }
env_logger = "=0.10.2"
figment = { version = "=0.10.19", features = ["env", "toml"] }
k8s-openapi = { version = "=0.18.0", features = ["v1_26"] }
kube = { version = "=0.82.2", default-features = false, features = ["client", "rustls-tls"] }
serde = { version = "=1.0.229", features = ["derive"] }
tokio = { version = "=1.54.1", features = ["rt-multi-thread", "time"] }
