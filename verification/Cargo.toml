[package]
name = "glf"
version = "0.1.0"
edition = "2021"
publish = false

[dependencies]
zip = { version = "*", default-features = false, features = ["deflate"] }
zune-inflate = "*"
chrono = "*"
chrono-tz = "*"
image = { version = "*", default-features = false }
