[package]
name = "simdev"
version = "0.1.0"
edition = "2021"
publish = false

[dependencies]
k256 = { version = "=0.13.4", features = ["ecdh"] }
sha3 = "=0.10.9"
aes = "=0.8.4"
cbc = { version = "=0.1.2", features = ["alloc", "block-padding"] }
hex = "=0.4.3"
rand = "=0.8.8"
hkdf = "=0.12.4"
clap = { version = "=4.5.61", features = ["derive", "env"] }
