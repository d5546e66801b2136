[package]
name = "io-reactor"
version = "0.6.0"
edition = "2021"
publish = false

[dependencies]
amplify = "4"
crossbeam-channel = "0.5"
log = "0.4"
popol = "*"
socket2 = { version = "0.5", features = ["all"] }
