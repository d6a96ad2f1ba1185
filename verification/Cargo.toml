[package]
name = "gb"
version = "0.1.0"
edition = "2021"
publish = false

[dependencies]
itertools = "*"
clap = "*"
zip = { version = "*", default-features = false, features = ["deflate"] }
