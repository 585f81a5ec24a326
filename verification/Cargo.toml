[package]
name = "steel_core"
version = "0.1.0"
edition = "2021"
publish = false

[dependencies]
simdnbt = { version = "=0.7.2", default-features = false }
