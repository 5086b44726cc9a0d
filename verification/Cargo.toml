[package]
name = "rpxy_backend"
version = "0.1.0"
edition = "2021"
publish = false

[dependencies]
bytes = "1"
hyper = "0.14"
rand = "0.8"
rustls-pemfile = "1"
tokio-rustls = "0.24"
