[package]
name = "mpd_webthing"
version = "0.1.0"
edition = "2021"
publish = false

[dependencies]
mpd = "*"
rand = "*"
serde_json = "*"
uuid = { version = "*", features = ["v4"] }
