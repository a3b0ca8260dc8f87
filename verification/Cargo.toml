[package]
name = "tixschema"
version = "0.1.0"
edition = "2021"
publish = false

[dependencies]
proc-macro2 = { version = "1", features = ["span-locations"] }
quote = "1"
regex = "1"
regex-syntax = "0.8"
syn = { version = "2", features = ["full", "extra-traits", "parsing", "printing"] }
