[package]
name = "parapool"
version = "0.1.0"
edition = "2021"
publish = false

[dependencies]
concurrent-queue = "*"
clap = { version = "*", features = ["derive"] }
indicatif = "*"
signal-hook = "*"
