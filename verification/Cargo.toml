[package]
name = "kube_portforward"
version = "0.1.0"
edition = "2021"
publish = false

[dependencies]
arc-swap = "=1.9.3"
base64 = "=0.23.1"
bytes = "=1.12.1"
crossbeam-queue = "=0.3.14"
futures = "=0.3.34"
http = "=1.5.0"
hyper = { version = "=1.12.0", features = ["client", "http1"] }
hyper-util = { version = "=0.1.21", features = ["tokio"] }
k8s-openapi = { version = "=0.29.0", features = ["latest"] }
kube = { version = "=5.0.0", default-features = false, features = ["client"] }
kube-runtime = { version = "=5.0.0", features = ["unstable-runtime-subscribe"] }
parking_lot = "=0.13.0"
quanta = "=0.13.0"
rand = "=0.10.3"
tokio = { version = "=1.54.1", features = ["rt", "macros", "sync", "time", "io-util"] }
tokio-util = "=0.7.20"
tracing = "=0.1.44"
