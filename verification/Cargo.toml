[package]
name = "browsy_cli"
version = "0.1.0"
edition = "2021"
publish = false

[dependencies]
base64 = "0.13"
colored = "2"
chrono = "0.4"
clap = { version = "4", features = ["derive"] }
reqwest = { version = "0.11", default-features = false, features = ["blocking"] }
terminal-menu = "2"
