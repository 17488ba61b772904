[package]
name = "async-ssh2-tokio"
version = "0.1.0"
edition = "2021"
publish = false

[dependencies]
ssh2 = "0.9"
tokio = { version = "1", features = ["net", "time", "rt", "io-util"] }
