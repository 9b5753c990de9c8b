[package]
name = "regexp_extract"
version = "0.1.0"
edition = "2021"
publish = false

[dependencies]
regex = "1"
arrow = { version = "54", default-features = false }
datafusion-common = { version = "46", default-features = false }
datafusion-expr = { version = "46", default-features = false }
datafusion-macros = "46"
