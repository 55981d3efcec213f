[package]
name = "fict"
version = "0.1.0"
edition = "2021"
publish = false

[dependencies]
rand = "0.8"
rustc-serialize = "*"
postgres = "*"
iron = "*"
router = "*"
persistent = "*"
plugin = "*"
hyper = "0.10"
time = "*"
