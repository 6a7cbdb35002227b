[package]
name = "treasure_hunt"
version = "0.1.0"
edition = "2021"
publish = false

[dependencies]
anchor-lang = { version = "=1.2.0", features = ["init-if-needed"] }
anchor-spl = { version = "=1.2.0", features = ["metadata"] }
