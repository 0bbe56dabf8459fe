[package]
name = "rats_tls"
version = "0.1.0"
edition = "2021"
publish = false

[dependencies]
base64 = "0.13"
foreign-types = "0.5"
log = "0.4"
serde_json = "1.0"
