[package]
name = "potency"
version = "0.1.0"
edition = "2021"
publish = false

[dependencies]
async-lock = "*"
log = "*"
serde = "*"
serde_json = "*"
snafu = "*"
sqlite = "*"

[dev-dependencies]
smol = "*"
