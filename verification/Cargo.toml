[package]
name = "harmonia"
version = "0.1.0"
edition = "2021"
publish = false

[dependencies]
rand = "0.8"
reqwest = { version = "0.12", default-features = false, features = ["blocking"] }
dirs = "*"
open = "*"
