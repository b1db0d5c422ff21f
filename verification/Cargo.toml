[package]
name = "derivatives_pricer"
version = "0.1.0"
edition = "2021"

[dependencies]
rand = "*"
