[package]
name = "dirtidy"
version = "0.1.0"
edition = "2021"
publish = false

[dependencies]
glob = "*"
regex = "*"
infer = "*"
chrono = "*"
clap = { version = "*", features = ["derive"] }
colored = "*"
indicatif = "*"
serde = { version = "*", features = ["derive"] }
toml = "*"
