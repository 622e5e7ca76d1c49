[package]
name = "winterm"
version = "0.6.0"
edition = "2021"
publish = false

[dependencies]
crossterm = "0.25"
nalgebra = "*"
