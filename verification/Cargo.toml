[package]
name = "impact_nft"
version = "0.1.0"
edition = "2021"
publish = false

[dependencies]
anchor-lang = "*"
anchor-spl = { version = "*", features = ["metadata"] }
