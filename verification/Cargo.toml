[package]
name = "mcp23s17"
version = "0.1.0"
edition = "2021"
publish = false

[dependencies]
spidev = "*"
