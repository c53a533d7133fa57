[package]
name = "ohttp-relay"
version = "0.1.0"
edition = "2021"
publish = false

[dependencies]
http = "=1.5.0"
http-body-util = "=0.1.5"
hyper = { version = "=1.12.0", features = ["http1", "server", "client"] }
hyper-rustls = { version = "=0.27.10", default-features = false, features = ["http1", "ring", "tls12", "webpki-tokio"] }
hyper-util = { version = "=0.1.21", features = ["client-legacy", "http1", "tokio"] }
tokio = { version = "=1.54.1", features = ["macros", "net", "rt", "rt-multi-thread"] }
tokio-util = { version = "=0.7.20", features = ["codec", "net"] }
tracing = "=0.1.44"
