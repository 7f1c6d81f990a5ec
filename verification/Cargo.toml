[package]
name = "request_rs"
version = "0.1.0"
edition = "2021"
publish = false

[dependencies]
bytes = "1"
httparse = "1"
url = "2"
net2 = "0.2"
