[package]
name = "rusty_sftp"
version = "0.1.0"
edition = "2021"
publish = false

[dependencies]
anyhow = "1"
bytes = "1"
futures = "0.3"
openssh = "*"
openssh-sftp-client = { version = "*", features = ["openssh"] }
tokio = { version = "1", features = ["fs", "io-util", "macros", "rt", "sync", "time"] }
tokio-util = "0.7"
tracing = "0.1"
