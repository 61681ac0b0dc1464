[package]
name = "starlord"
version = "0.1.0"
edition = "2021"
publish = false

[dependencies]
regex = "=1.13.1"
rustc-serialize = "=0.3.25"
hyper = { version = "=0.14.32", features = ["client", "http1", "tcp"] }
rocket = "=0.5.2"
slack_api = { version = "=0.23.1", features = ["sync", "reqwest_blocking"] }
toml = "=1.1.8"
