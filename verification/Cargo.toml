[package]
name = "tagger_host"
version = "0.1.0"
edition = "2021"
publish = false

[dependencies]
url = "*"
zip = "*"
base64 = "*"
