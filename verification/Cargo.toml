[package]
name = "embedded-hal-io"
version = "0.1.0"
edition = "2021"
publish = false

[dependencies]
blocking = "1"
digest = "0.10"
futures = "0.3"
nb = "1"
tokio = { version = "1", default-features = false, features = ["io-util"] }
