[package]
name = "pellxd"
version = "0.1.0"
edition = "2021"
publish = false

[dependencies]
clap = { version = "4", features = ["derive"] }
confy = "*"
serde = { version = "1", features = ["derive"] }
humantime = "2"
ureq = "3"
users = "0.11"
