[package]
name = "lnp_channel"
version = "0.1.0"
edition = "2021"
publish = false

[dependencies]
amplify = "=3.14.2"
bitcoin = "=0.28.2"
descriptor-wallet = "=0.6.1"
internet2 = { version = "=0.6.1", default-features = false, features = ["derive"] }
lnp-core = "=0.6.0"
lnpbp = "=0.6.0"
log = "0.4"
strict_encoding = { version = "=1.8.11", features = ["derive"] }
