[package]
name = "gps_correct"
version = "0.1.0"
edition = "2021"
publish = false

[dependencies]
bytes = "1"
gtk4 = "*"
http-body-util = "0.1"
hyper = { version = "1", features = ["client", "http1"] }
tokio = { version = "1", features = ["io-util", "macros", "net", "rt-multi-thread", "time"] }
tokio-serial = "5"
