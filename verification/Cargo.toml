[package]
name = "tun"
version = "0.1.0"
edition = "2021"
publish = false

[dependencies]
bytes = "1"
etherparse = "*"
libc = "0.2"
tokio-util = { version = "0.7", features = ["codec"] }
