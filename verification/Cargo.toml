[package]
name = "optee_utee"
version = "0.1.0"
edition = "2021"
publish = false

[dependencies]
uuid = "1"
hex = "0.4"
proc-macro2 = "1"
quote = "1"
syn = { version = "2", features = ["full"] }
prettyplease = "0.2"
