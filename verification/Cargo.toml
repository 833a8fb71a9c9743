[package]
name = "litebin"
version = "0.1.0"
edition = "2021"
publish = false

[dependencies]
infer = "*"
rand = "0.8"
rocket = "0.5"
rocket-basicauth = "*"

[dev-dependencies]
base64 = "0.13"
