[package]
name = "bound_variables"
version = "0.1.0"
edition = "2021"
publish = false

[dependencies]
hurl_core = "*"
