[package]
name = "hothost"
version = "0.1.0"
edition = "2021"
publish = false

[dependencies]
clap = { version = "*", features = ["derive"] }
libloading = "*"
serde = { version = "*", features = ["derive"] }
