[package]
name = "loreyawen"
version = "0.1.0"
edition = "2021"
publish = false

[dependencies]
aes = "0.8"
cipher = "0.4"
cmac = "0.7"
ctr = "0.9"
