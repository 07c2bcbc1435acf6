[package]
name = "terranames"
version = "0.1.0"
edition = "2021"
publish = false

[dependencies]
cosmwasm-std = "0.16"
cosmwasm-storage = "0.16"
cw20 = "0.8"
schemars = "0.8"
serde = { version = "1", default-features = false, features = ["derive"] }
snafu = "0.6"
terra-cosmwasm = "2.2"
