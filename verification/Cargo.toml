[package]
name = "argus_ui"
version = "0.1.0"
edition = "2021"
publish = false

[dependencies]
async-channel = "2"
chrono = "0.4"
icondata = "*"
pulldown-cmark = { version = "*", default-features = false }
secrecy = "0.10"
serde_json = "1"
tokio = { version = "1", features = ["rt"] }
tokio-util = "0.7"
uuid = { version = "1", features = ["v4"] }
