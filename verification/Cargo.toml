[package]
name = "domain_strings"
version = "0.1.0"
edition = "2021"
publish = false

[dependencies]
arbitrary = "1"
fake = "2.9"
lipsum = "0.9"
rand = "0.8"
serde = { version = "1", features = ["derive"] }
