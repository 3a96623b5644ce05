[package]
name = "acfun_danmaku"
version = "0.1.0"
edition = "2021"
publish = false

[dependencies]
aes = "0.7"
block-modes = "0.8"
base64 = "0.13"
flate2 = "1"
rand = "0.8"
tokio = { version = "1", features = ["rt", "macros", "time"] }
futures = "0.3"
async-tungstenite = { version = "*", features = ["tokio-runtime"] }
