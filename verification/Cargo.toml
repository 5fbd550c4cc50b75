[package]
name = "dwebp"
version = "0.1.0"
edition = "2021"
publish = false

[dependencies]
image = { version = "=0.24.9", default-features = false, features = ["png"] }
webp-animation = "=0.10.0"

[dev-dependencies]
png = "=0.17.16"
