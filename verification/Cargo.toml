[package]
name = "pio_uart"
version = "0.1.0"
edition = "2021"
publish = false

[dependencies]
embedded-io = "*"
fugit = "*"
