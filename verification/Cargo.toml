[package]
name = "sw_rast"
version = "0.1.0"
edition = "2021"
publish = false

[dependencies]
cgmath = "*"
obj = "*"
hprof = "*"
