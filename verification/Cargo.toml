[package]
name = "fbcapture"
version = "0.1.0"
edition = "2021"
publish = false

[dependencies]
clap = "*"
libc = "*"
memmap = "*"
png = "*"
simple-error = "*"
