[package]
name = "viking_macros_enum"
version = "0.1.0"
edition = "2021"
publish = false

[dependencies]
convert_case = "0.8"
proc-macro2 = "1"
quote = "1"
syn = { version = "2", features = ["full", "extra-traits"] }
