[package]
name = "broadcast_client"
version = "0.1.0"
edition = "2021"
publish = false

[dependencies]
iracing-broadcast = "*"
napi = "*"
napi-derive = "*"
