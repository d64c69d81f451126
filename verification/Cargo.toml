[package]
name = "waku"
version = "0.1.0"
edition = "2021"
publish = false

[dependencies]
serde = { version = "1", features = ["derive"] }
multiaddr = "*"
aes-gcm = "*"
libsecp256k1 = "*"
