[package]
name = "awdb"
version = "0.1.0"
edition = "2021"
publish = false

[dependencies]
extendr-api = "*"
serde_json = "1"
