[package]
name = "cit"
version = "0.1.0"
edition = "2021"
publish = false

[dependencies]
sha2 = "0.10"
serde = { version = "1", features = ["derive"] }
serde_yaml = "0.9"
dirs = "5"
clap = { version = "4", features = ["derive"] }
