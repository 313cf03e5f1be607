[package]
name = "launch_code"
version = "0.1.0"
edition = "2021"
publish = false

[dependencies]
sodiumoxide = "*"
rustc-serialize = "*"
