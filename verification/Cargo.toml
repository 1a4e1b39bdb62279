[package]
name = "term_input_bridge"
version = "0.1.0"
edition = "2021"
publish = false

[dependencies]
crossbeam-channel = "*"
termion = "*"
signal-hook = "*"
libc = "*"
