[package]
name = "bad_password"
version = "0.1.0"
edition = "2021"
publish = false

[dependencies]
rand = "*"
chrono = "*"
clap = { version = "*", features = ["derive"] }
