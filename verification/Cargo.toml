[package]
name = "scypher"
version = "3.0.0"
edition = "2021"
publish = false

[dependencies]
argon2 = "0.5"
sha2 = "0.10"
zeroize = "1"
rand = "0.8"
clap = "4"
ctrlc = "3"

[dev-dependencies]
bip39 = "2"
