[package]
name = "graphene_decode"
version = "0.1.0"
edition = "2021"
publish = false

[dependencies]
alloy = { version = "*", default-features = false, features = ["sol-types"] }
rust_decimal = { version = "*", features = ["maths"] }
serde = "*"
serde_json = "*"
eyre = "*"
