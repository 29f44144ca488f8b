[package]
name = "rrproxy"
version = "0.1.0"
edition = "2021"
publish = false

[dependencies]
hyper = { version = "0.14", features = ["full"] }
tokio = { version = "1", features = ["full"] }
tokio-rustls = "0.23"
rustls-pemfile = "1"
dotenv = "0.15"
