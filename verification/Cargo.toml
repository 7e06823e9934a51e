[package]
name = "aead2022_udp"
version = "0.1.0"
edition = "2021"
publish = false

[dependencies]
aes-gcm = { version = "0.10", default-features = false, features = ["aes"] }
blake3 = { version = "1", default-features = false, features = ["pure"] }
chacha20poly1305 = { version = "0.10", default-features = false, features = ["reduced-round"] }
