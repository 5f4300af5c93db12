[package]
name = "netease"
version = "0.1.0"
edition = "2021"
publish = false

[dependencies]
bytes = "1"
lofty = "*"
rand = "0.8"
regex = "1"
reqwest = { version = "0.12", default-features = false, features = ["rustls-tls"] }
serde_json = "1"
