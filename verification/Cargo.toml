[package]
name = "better_socks"
version = "0.1.0"
edition = "2021"
publish = false

[dependencies]
bytes = "1"
tokio = { version = "1", features = ["net", "io-util", "rt", "time"] }
tokio-util = { version = "0.7", features = ["codec", "net"] }
futures-core = "0.3"
futures-sink = "0.3"
futures-util = { version = "0.3", features = ["sink"] }
pin-project = "1"
thiserror = "1"
either = "1"
