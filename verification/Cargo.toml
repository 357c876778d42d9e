[package]
name = "data_vessel"
version = "0.1.0"
edition = "2021"
publish = false

[dev-dependencies]
crossbeam-utils = "*"
