[package]
name = "deriving_via"
version = "0.1.0"
edition = "2021"
publish = false

[dependencies]
syn = { version = "2", features = ["full", "extra-traits"] }
quote = "1"
proc-macro2 = "1"
convert_case = "0.6"
proc-macro-error2 = "2"
