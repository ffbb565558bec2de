[package]
name = "coop_async"
version = "0.1.0"
edition = "2021"
publish = false

[dependencies]
trpl = "*"
