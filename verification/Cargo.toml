[package]
name = "tokenlottery"
version = "0.1.0"
edition = "2021"
publish = false

[dependencies]
anchor-lang = "=0.31.2"
anchor-spl = { version = "=0.31.2", default-features = false, features = ["metadata", "associated_token", "mint", "token", "token_2022", "token_2022_extensions"] }
switchboard-on-demand = "=0.13.0"
