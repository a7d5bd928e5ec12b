[package]
name = "saturnus"
version = "0.1.0"
edition = "2021"
publish = false

[dependencies]
rlua = "*"
clap = { version = "*", features = ["derive"] }
