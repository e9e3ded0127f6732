[package]
name = "email_reader"
version = "0.1.0"
edition = "2021"
publish = false

[dependencies]
base64 = "=0.22.1"
cfdkim = "=0.3.0"
futures = "=0.3.34"
mailparse = "=0.14.1"
reqwest = { version = "=0.12.28", default-features = false, features = ["blocking", "rustls-tls"] }
rustls = { version = "=0.23.45", default-features = false, features = ["ring", "std", "tls12"] }
serde_json = "=1.0.151"
serde_urlencoded = "=0.7.1"
sha2 = "=0.10.9"
sloggers = "=2.2.0"
webpki-roots = "=1.0.9"
zeroize = { version = "=1.9.1", features = ["derive"] }
