[package]
name = "error_level_derive"
version = "0.1.0"
edition = "2021"
publish = false

[dependencies]
syn = { version = "=1.0.109", features = ["full", "extra-traits"] }

[dev-dependencies]
proc-macro2 = "=1.0.107"
