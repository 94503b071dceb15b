[package]
name = "tiycode"
version = "0.1.0"
edition = "2021"
publish = false

[dependencies]
chrono = "=0.4.45"
serde = { version = "=1.0.229", features = ["derive"] }
serde_json = "=1.0.154"
toml = "=0.8.23"
dirs = "=5.0.1"
aes = "=0.8.4"
cbc = { version = "=0.1.2", features = ["alloc"] }
rand = "=0.8.8"
hex = "=0.4.3"
sha2 = "=0.10.9"
hmac = "=0.12.1"
subtle = "=2.6.1"
base64 = "=0.22.1"
uuid = { version = "=1.29.0", features = ["v4", "v7"] }
md-5 = "0.10"
