[package]
name = "request_handler"
version = "0.1.0"
edition = "2021"
publish = false

[dependencies]
hyper = { version = "0.14", default-features = false, features = ["http1", "server"] }
tracing = { version = "0.1", default-features = false, features = ["std"] }
