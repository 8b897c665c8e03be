[package]
name = "ds"
version = "0.2.1"
edition = "2021"
publish = false

[dependencies]
byteorder = "1"
bytes = "0.5"
chrono = "0.4"
rand = "0.7"
failure = "0.1"
futures = "0.3"
futures-channel = "0.3"
futures-util = { version = "0.3", features = ["sink"] }
tokio = { version = "0.2", features = ["full"] }
tokio-util = { version = "0.2", features = ["codec", "udp"] }
libc = "0.2"
lazy_static = "1"
