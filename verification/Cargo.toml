[package]
name = "gron"
version = "0.1.0"
edition = "2021"
publish = false

[dependencies]
serde_json = "*"
json5 = "*"
toml = "*"
serde_yaml = "*"
atty = "*"
clap = { version = "*", features = ["derive"] }
termcolor = "*"
url = "*"
