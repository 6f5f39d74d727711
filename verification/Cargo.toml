[package]
name = "fyodor"
version = "0.1.0"
edition = "2021"
publish = false

[dependencies]
better-panic = "*"
crossterm = "*"
thiserror = "*"
unicode-width = "*"
