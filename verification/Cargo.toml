[package]
name = "fox"
version = "0.1.0"
edition = "2021"
publish = false

[dependencies]
clap = "*"
crossterm = "*"
owo-colors = "*"
serde = { version = "*", features = ["derive"] }
shellexpand = "*"
syntect = "4"
terminal-clipboard = "*"
toml = "*"
carbon-dump = "*"
