[package]
name = "vrf"
version = "0.1.0"
edition = "2021"
publish = false

[dependencies]
failure = "0.1"
hmac-sha256 = "1"
openssl = "0.10"
