[package]
name = "index_admin"
version = "0.1.0"
edition = "2021"
publish = false

[dependencies]
serde_json = "1"
rand = "0.8"
reqwest = { version = "0.12", default-features = false, features = ["blocking"] }
