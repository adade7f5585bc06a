[package]
name = "query_catalog"
version = "0.1.0"
edition = "2021"
publish = false

[dependencies]
anyhow = "*"
lazy_static = "*"
