[package]
name = "anytest"
version = "0.1.0"
edition = "2021"
publish = false

[dependencies]
regex = "1"
which = "*"
clap = { version = "4", features = ["derive"] }
rev_buf_reader = "*"
