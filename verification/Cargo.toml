[package]
name = "meteomatics"
version = "0.1.0"
edition = "2021"
publish = false

[dependencies]
chrono = { version = "0.4", default-features = false, features = ["std", "clock"] }
csv = "1"
url = "2"
reqwest = { version = "0.11", default-features = false, features = ["rustls-tls"] }
