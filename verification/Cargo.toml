[package]
name = "rusty_motors"
version = "0.1.0"
edition = "2021"
publish = false

[dependencies]
hex = "0.4"
openssl = "0.10"
tokio = { version = "1", features = ["rt-multi-thread", "macros", "net", "io-util", "sync", "time", "fs"] }
crossterm = "*"
simplelog = "*"
log = "0.4"
