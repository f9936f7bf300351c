[package]
name = "autoit"
version = "0.1.0"
edition = "2021"
publish = false

[dependencies]
widestring = "=0.4.3"
failure = { version = "=0.1.8", default-features = false, features = ["std"] }
