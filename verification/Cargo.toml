[package]
name = "wcferry"
version = "0.1.0"
edition = "2021"
publish = false

[dependencies]
log = "0.4"
nng = "1.0"
prost = { version = "0.11", default-features = false, features = ["std"] }
