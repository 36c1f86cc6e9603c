[package]
name = "geo-uri"
version = "0.2.2"
edition = "2021"
publish = false

[dependencies]
derive_builder = "0.12"
thiserror = "1"
url = "2"
