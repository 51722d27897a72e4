[package]
name = "hashtool"
version = "0.1.0"
edition = "2021"
publish = false

[dependencies]
blake3 = "*"
clap = { version = "*", features = ["derive"] }
dunce = "*"
hex = "*"
md-5 = "*"
sha1 = "*"
sha2 = "*"
sha3 = "*"
wild = "*"
