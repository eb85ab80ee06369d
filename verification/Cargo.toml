[package]
name = "duty_cycle"
version = "0.1.0"
edition = "2021"
publish = false

[dependencies]
rand = "0.6"
rppal = "0.11"
