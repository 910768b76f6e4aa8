[package]
name = "link_checker"
version = "0.1.0"
edition = "2021"
publish = false

[dependencies]
url = "2"
csv = "1"
tokio = { version = "1", features = ["macros", "rt-multi-thread", "time"] }
reqwest = { version = "0.12", default-features = false, features = ["rustls-tls"] }
