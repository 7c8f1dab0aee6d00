[package]
name = "asset_model"
version = "0.1.0"
edition = "2021"
publish = false

[dependencies]
rust_decimal = "1"
