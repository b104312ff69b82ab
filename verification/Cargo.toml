[package]
name = "fwupd"
version = "0.1.0"
edition = "2021"
publish = false

[dependencies]
ihex = "3"
log = "0.4"
tokio = { version = "1", features = ["io-util", "time"] }
