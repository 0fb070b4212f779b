[package]
name = "lemurs"
version = "0.1.0"
edition = "2021"
publish = false

[dependencies]
rand = "0.8"
nix = { version = "0.26", features = ["user"] }
crossterm = "0.25"
chvt = "*"
