[package]
name = "ping_monitor"
version = "0.1.0"
edition = "2021"
publish = false

[dependencies]
encoding_rs = "=0.8.42"
lettre = { version = "=0.11.23", default-features = false, features = ["builder", "smtp-transport", "rustls-no-provider", "webpki-roots"] }
chrono = "*"
serde = { version = "*", features = ["derive"] }
serde_json = "*"
url = "*"
