[package]
name = "feedfinder"
version = "0.1.0"
edition = "2021"
publish = false

[dependencies]
failure = "0.1"
kuchiki = "0.8"
url = "2"
