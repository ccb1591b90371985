[package]
name = "salvo_kit"
version = "0.1.0"
edition = "2021"
publish = false

[dependencies]
bytes = "=1.12.1"
cruet = "=1.0.0"
fastrand = "=2.5.0"
futures-util = "=0.3.34"
h3 = "=0.0.8"
h3-quinn = "=0.0.10"
http = "=1.5.0"
http-body-util = "0.1"
hyper = { version = "1", features = ["http1", "http2", "server"] }
hyper-util = { version = "0.1", features = ["tokio"] }
mime = "=0.3.17"
nix = { version = "=0.31.3", features = ["fs", "user"] }
percent-encoding = "=2.3.2"
serde = { version = "=1.0.229", features = ["derive"] }
serde_json = "=1.0.154"
tokio = { version = "=1.54.1", features = ["full"] }
tokio-native-tls = "=0.3.1"
tokio-util = "=0.7.20"
tracing = "=0.1.44"
