[package]
name = "docker_engine_api"
version = "0.1.0"
edition = "2021"

[dependencies]
serde_json = "1"
hyper = { version = "0.14", features = ["client", "http1", "runtime", "tcp"] }
hyperlocal = "0.8"
tokio = { version = "1", features = ["rt", "rt-multi-thread"] }
