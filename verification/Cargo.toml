[package]
name = "value_size"
version = "0.1.0"
edition = "2021"
publish = false

[dependencies]
serde_json = "1"
chrono = "0.4"
proc-macro2 = "1"
quote = "1"
syn = "2"
