[package]
name = "ftpc"
version = "0.1.0"
edition = "2021"
publish = false

[dependencies]
port_scanner = "*"
text_io = "*"
