[package]
name = "bigworlds"
version = "0.1.0"
edition = "2021"
publish = false

[dependencies]
getopts = "*"
semver = "*"
toml = "*"
serde = { version = "*", features = ["derive"] }
vfs = "*"
tar = "*"
bytes = "*"
