[package]
name = "alt"
version = "0.1.0"
edition = "2021"
publish = false

[dependencies]
anyhow = "1"
clap = { version = "4", features = ["derive"] }
flate2 = "1"
libc = "0.2"
serde = { version = "1", features = ["derive"] }
tar = "0.4"
toml = "0.8"
user = "*"
xz2 = "0.1"
zip = "0.6"
zip-extensions = "0.6"
