[package]
name = "isignkit"
version = "0.1.0"
edition = "2021"
publish = false

[dependencies]
base64 = "0.22"
md5 = "0.7"
hex = "0.4"
rncryptor = "*"
url = "2"
chrono = { version = "0.4", default-features = false, features = ["clock", "std"] }
version-compare = "0.2"
openssl = "0.10"
serde = { version = "1", features = ["derive"] }
serde_json = "1"
anyhow = "1"
thiserror = "2"
clap = { version = "4", features = ["derive"] }
log = "0.4"
simple_logger = "*"
reqwest = { version = "0.12", default-features = false, features = ["blocking", "rustls-tls"] }
schemars = "1"
boon = "*"
codes-iso-4217 = "*"
