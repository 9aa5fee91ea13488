[package]
name = "enum_as_inner"
version = "0.1.0"
edition = "2021"
publish = false

[dependencies]
heck = "=0.3.3"
proc-macro2 = "=0.4.30"
quote = "=0.6.13"
syn = { version = "=0.15.44", features = ["full"] }
