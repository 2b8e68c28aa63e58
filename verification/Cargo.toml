[package]
name = "cwinui"
version = "0.1.2"
edition = "2021"
publish = false

[dependencies]
termion = "*"
