[package]
name = "rsfunge"
version = "0.1.0"
edition = "2021"
publish = false

[dependencies]
chrono = "0.4"
clap = { version = "2", default-features = false }
rand = "0.7"
typenum = "1"
