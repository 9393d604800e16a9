[package]
name = "protocol"
version = "0.1.0"
edition = "2021"
publish = false

[dependencies]
anyhow = "1"
quinn = "0.11"
quinn-proto = "0.11"
rcgen = "0.13"
rustls = { version = "0.23", default-features = false, features = ["ring", "std", "logging", "tls12"] }
tokio = { version = "1", features = ["rt-multi-thread", "macros", "io-util"] }
