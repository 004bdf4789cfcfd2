[package]
name = "ssb-slp-encoding"
version = "0.1.0"
edition = "2021"
publish = false

[dependencies]
bytes = "1"
snafu = "0.6"
