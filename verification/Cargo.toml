[package]
name = "account-model"
version = "0.1.0"
edition = "2021"
publish = false

[dependencies]
iso_currency = "*"
isocountry = "*"
log = "*"
uuid = { version = "*", features = ["v4"] }
