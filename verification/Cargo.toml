[package]
name = "agemda"
version = "0.1.0"
edition = "2021"
publish = false

[dependencies]
anyhow = "*"
argh = "*"
chrono = "*"
ignore = "*"
pulldown-cmark = "*"
