[package]
name = "ocpp_rs"
version = "0.2.0"
edition = "2021"
publish = false
