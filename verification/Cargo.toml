[package]
name = "new_core"
version = "0.1.0"
edition = "2021"
publish = false

[dependencies]
heck = "*"
proc-macro2 = "1"
quote = "1"
syn = "2"
