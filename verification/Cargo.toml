[package]
name = "zip_rs"
version = "0.1.0"
edition = "2021"
publish = false

[dependencies]
bitreader = "0.3"
flate2 = "1"
memchr = "2"
memmap = "0.7"
thiserror = "1"
