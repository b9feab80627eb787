[package]
name = "formatter_builder"
version = "0.1.0"
edition = "2021"
publish = false

[dependencies]
oorandom = "11.1"
