[package]
name = "encrypted_box"
version = "0.1.0"
edition = "2021"

[dependencies]
openssl = "*"
sha2 = "*"
base64 = "*"
structopt = "*"
