[package]
name = "ic_auth_tokens"
version = "0.1.0"
edition = "2021"
publish = false

[dependencies]
crc = "3"
rand = "0.8"
rand_chacha = "0.3"
serde = { version = "1", features = ["derive"] }
derive_more = { version = "1", features = ["display"] }
ic-cdk = "*"
candid = "*"

[dev-dependencies]
base62 = "2"
