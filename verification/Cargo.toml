[package]
name = "tonic_quic"
version = "0.1.0"
edition = "2021"
publish = false

[dependencies]
bytes = "1"
futures = "0.3"
futures-core = "0.3"
futures-util = "0.3"
http = "0.2"
http-body = "0.4"
hyper = { version = "0.14", features = ["client", "server", "http1", "http2", "stream"] }
pin-project = "1"
pin-project-lite = "0.2"
quinn = "0.8"
rcgen = "0.10"
rustls = "0.20"
tokio = { version = "1", features = ["fs", "io-util", "net", "sync", "rt"] }
tokio-stream = "0.1"
tower = { version = "0.4", features = ["util", "limit", "discover", "make", "timeout"] }
tracing = "0.1"
