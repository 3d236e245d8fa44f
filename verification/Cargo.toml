[package]
name = "percore"
version = "0.1.0"
edition = "2021"
publish = false

[dependencies]
mio = { version = "0.8", features = ["net", "os-poll"] }
socket2 = { version = "0.5", features = ["all"] }
