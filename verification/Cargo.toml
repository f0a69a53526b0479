[package]
name = "prometheus_wireguard_exporter"
version = "0.1.0"
edition = "2021"
publish = false

[dependencies]
base64 = "=0.23.1"
bytes = "=1.12.1"
http = "=1.5.0"
http-body-util = "=0.1.5"
hyper = { version = "=1.12.0", features = ["http1", "server"] }
hyper-util = { version = "=0.1.21", features = ["tokio", "server", "http1"] }
log = "=0.4.35"
tokio = { version = "=1.54.1", features = ["net", "rt"] }
