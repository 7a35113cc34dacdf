[package]
name = "kubecon-controller"
version = "0.1.0"
edition = "2021"
publish = false

[dependencies]
anyhow = "=1.0.104"
clap = { version = "=4.6.7", features = ["derive", "env"] }
futures-util = "=0.3.34"
k8s-openapi = { version = "=0.25.0", features = ["latest", "schemars"] }
kube = { version = "=1.1.0", default-features = false, features = ["client", "derive", "runtime"] }
kubert = { version = "=0.25.0", default-features = false, features = ["clap", "client", "index", "log", "runtime"] }
parking_lot = "=0.12.5"
schemars = "=0.8.22"
serde = { version = "=1.0.229", features = ["derive"] }
serde_json = "=1.0.154"
thiserror = "=2.0.21"
tokio = { version = "=1.54.1", features = ["macros", "rt", "time"] }
tracing = "=0.1.44"
tracing-subscriber = "=0.3.23"
