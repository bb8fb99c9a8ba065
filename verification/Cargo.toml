[package]
name = "uasset"
version = "0.1.0"
edition = "2021"
publish = false

[dependencies]
binread = "2.2"
num-traits = "0.2"
thiserror = "1.0"
