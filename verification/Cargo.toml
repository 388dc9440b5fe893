[package]
name = "subscription_engine"
version = "0.1.0"
edition = "2021"
publish = false

[dependencies]
anchor-lang = "0.31.1"
spl-token = { version = "6.0.0", features = ["no-entrypoint"] }
