[package]
name = "bw_operator"
version = "0.1.0"
edition = "2021"
publish = false

[dependencies]
kube = { version = "*", default-features = false, features = ["client", "runtime", "rustls-tls"] }
k8s-openapi = { version = "*", features = ["latest"] }
tokio = { version = "*", features = ["macros", "rt-multi-thread", "time"] }
futures = "*"
serde = { version = "*", features = ["derive"] }
serde_json = "*"
config = "*"
env_logger = "*"
log = "*"
thiserror = "*"
const_format = "*"
