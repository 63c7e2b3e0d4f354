[package]
name = "sftpgo_operator"
version = "0.1.0"
edition = "2021"
publish = false

[dependencies]
async-trait = "0.1"
base64 = "0.21"
chrono = { version = "0.4", features = ["serde"] }
futures = "0.3"
k8s-openapi = { version = "0.18", features = ["v1_26"] }
kube = { version = "0.83", default-features = false, features = ["client", "derive", "runtime", "rustls-tls"] }
kube-runtime = "0.83"
log = "0.4"
pretty_env_logger = "0.5"
rand = "0.8"
reqwest = { version = "0.11", default-features = false, features = ["json", "rustls-tls"] }
schemars = "0.8"
serde = { version = "1", features = ["derive"] }
serde_json = "1"
serde_repr = "0.1"
serde_yaml = "0.9"
thiserror = "1"
tokio = { version = "1", features = ["macros", "rt-multi-thread", "sync"] }
url = "2"
