[package]
name = "linear_core"
version = "0.1.0"
edition = "2021"
publish = false

[dependencies]
polars = { version = "=0.55.2", default-features = false, features = ["csv"] }
