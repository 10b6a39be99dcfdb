[package]
name = "bubbler"
version = "0.1.0"
edition = "2021"
publish = false

[dependencies]
actix-web = "*"
gpio-cdev = "*"
serde = { version = "*", features = ["derive"] }
serde_json = "*"
