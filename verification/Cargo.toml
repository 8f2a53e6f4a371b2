[package]
name = "redb_model"
version = "0.1.0"
edition = "2021"
publish = false

[dependencies]
darling = "0.20"
proc-macro2 = "1"
quote = "1"
redb = "2"
syn = { version = "2", features = ["full", "extra-traits"] }
