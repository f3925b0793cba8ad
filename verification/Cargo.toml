[package]
name = "smccc"
version = "0.1.0"
edition = "2021"
publish = false

[dependencies]
thiserror = { version = "2", default-features = false }
