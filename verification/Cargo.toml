[package]
name = "umami"
version = "0.1.0"
edition = "2021"
publish = false

[dependencies]
goose = "0.10"
log = "0.4"
rand = "0.8"

[dev-dependencies]
regex = "1"
