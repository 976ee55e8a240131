[package]
name = "aperture"
version = "0.1.0"
edition = "2021"
publish = false

[dependencies]
rand = "0.8"
regex = "1"
url = "2"
tempfile = "3"
serde_json = "1"
tokio = { version = "1", features = ["process", "time", "rt-multi-thread", "macros"] }
