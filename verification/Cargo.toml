[package]
name = "iris_backend"
version = "0.1.0"
edition = "2021"
publish = false

[dependencies]
bs58 = "*"
sha2 = "*"
ripemd = "*"
urlencoding = "*"
candid = "*"
ic-cdk = "*"
ic-cdk-macros = "*"
serde = "*"
