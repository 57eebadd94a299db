[package]
name = "wire_convert"
version = "0.1.0"
edition = "2021"
publish = false

[dependencies]
bincode = "1.3"
digest = "0.10"
itertools = "*"
prost-types = "*"
sha2 = "0.10"
solana-sdk = "~2.0"
