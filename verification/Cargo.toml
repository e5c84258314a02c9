[package]
name = "the_process_foundry"
version = "0.1.0"
edition = "2021"
publish = false

[dependencies]
semver = "*"
regex = "*"
serde = "*"
serde_derive = "*"
serde_yaml = "*"
