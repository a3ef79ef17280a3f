[package]
name = "de2fa"
version = "0.1.0"
edition = "2021"
publish = false

[dependencies]
base32 = "*"
clap = "2"
image = "*"
oath = "*"
quirc = "*"
url = "*"
