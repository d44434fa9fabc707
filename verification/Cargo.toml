[package]
name = "ferris_fetch"
version = "0.1.0"
edition = "2021"
publish = false

[dependencies]
colored = "2"
humansize = "2"
sysinfo = "0.30"
whoami = "1.5"
