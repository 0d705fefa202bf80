[package]
name = "bfbb"
version = "0.1.0"
edition = "2021"
publish = false

[dependencies]
process-memory = "*"
proc-maps = "*"
sysinfo = "0.29"
