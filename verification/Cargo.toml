[package]
name = "channeld"
version = "0.1.0"
edition = "2021"
publish = false

[dependencies]
amplify = { version = "=3.14.2", features = ["hex"] }
lnp-core = "=0.6.0"

[dev-dependencies]
bitcoin = "=0.28.2"
