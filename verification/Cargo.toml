[package]
name = "kagiyama"
version = "0.1.0"
edition = "2021"
publish = false

[dependencies]
prometheus-client = "*"
tokio = { version = "1", features = ["sync", "rt-multi-thread", "net", "time"] }
hyper = { version = "0.14", features = ["http1", "server", "tcp"] }
anyhow = "1"
tower = "0.4"
