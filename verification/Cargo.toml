[package]
name = "rotator"
version = "0.1.0"
edition = "2021"
publish = false

[dependencies]
clap = { version = "3", default-features = false, features = ["std"] }
log = "0.4"
rand = "0.8"
