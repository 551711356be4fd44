[package]
name = "acme_dns01"
version = "0.1.0"
edition = "2021"
publish = false

[dependencies]
base64ct = { version = "1", features = ["alloc"] }
p256 = { version = "0.13", features = ["ecdsa"] }
rand = "0.8"
rcgen = "0.12"
serde = { version = "1", features = ["derive"] }
serde_json = "1"
sha2 = "0.10"
toml = "0.8"
ureq = { version = "2", features = ["json"] }
