[package]
name = "hubcaps"
version = "0.1.0"
edition = "2021"
publish = false

[dependencies]
url = "*"
form_urlencoded = "*"
serde = { version = "*", features = ["derive"] }
serde_json = "*"
