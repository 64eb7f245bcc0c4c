[package]
name = "mustang_cli"
version = "0.1.0"
edition = "2021"
publish = false

[dependencies]
clap = { version = "4", features = ["derive"] }
tempfile = "3"
thiserror = "2"
