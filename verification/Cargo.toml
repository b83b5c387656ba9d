[package]
name = "postcode_nl"
version = "0.1.0"
edition = "2021"
publish = false

[dependencies]
http = "*"
serde_json = "*"
reqwest = { version = "*", default-features = false }
thiserror = "*"
