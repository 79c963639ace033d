[package]
name = "licensegen"
version = "0.1.0"
edition = "2021"
publish = false

[dependencies]
aes = "=0.8.4"
anyhow = "=1.0.104"
base64 = "=0.22.1"
block-padding = "=0.3.3"
cbc = "=0.1.2"
chrono = "=0.4.45"
cipher = "=0.4.4"
ctr = "=0.9.2"
dirs = "=5.0.1"
hex = "=0.4.3"
hmac = "=0.12.1"
log = "=0.4.35"
mysql_async = { version = "=0.34.2", default-features = false, features = ["minimal-rust", "rust_decimal", "chrono"] }
pbkdf2 = "=0.12.2"
rand = "=0.8.8"
rsa = "=0.9.10"
rust_decimal = "=1.43.0"
serde = { version = "=1.0.229", features = ["derive"] }
serde_json = "=1.0.154"
serde_yaml = "=0.9.34"
sha2 = { version = "=0.10.9", features = ["oid"] }
shellexpand = "=3.1.2"
thiserror = "=1.0.69"
tokio = { version = "=1.54.1", features = ["macros", "rt-multi-thread"] }
