[package]
name = "omnitak_trust"
version = "0.1.0"
edition = "2021"
publish = false

[dependencies]
rustls = "=0.21.12"
rustls-pemfile = "=1.0.4"
tokio-rustls = "=0.24.1"
tokio = { version = "=1.53.2", features = ["rt-multi-thread", "io-util"] }
lazy_static = "=1.5.1"
parking_lot = "=0.12.5"

[dev-dependencies]
rcgen = "0.12"
