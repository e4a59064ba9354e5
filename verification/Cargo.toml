[package]
name = "svsm_request"
version = "0.1.0"
edition = "2021"
publish = false

[dependencies]
lazy_static = "1.4"
x86_64 = { version = "0.14", default-features = false, features = ["instructions"] }
