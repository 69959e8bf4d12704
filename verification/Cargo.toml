[package]
name = "autopool"
version = "0.1.0"
edition = "2021"
publish = false

[dependencies]
async-std = { version = "1.6.5, <1.7.0", features = ["unstable"] }
crossbeam-channel = "0.4"
log = "0.4"
