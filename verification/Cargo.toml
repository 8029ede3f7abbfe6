[package]
name = "optimus"
version = "0.1.0"
edition = "2021"
publish = false

[dependencies]
rand = "0.8"
regex = "1"
url = "2"
base64 = "0.21"
urlencoding = "2"
html-escape = "0.2"
fastrand = "1"
words-count = "0.1"
serde = { version = "1", features = ["derive"] }
serde_json = "1"
toml = "0.7"
