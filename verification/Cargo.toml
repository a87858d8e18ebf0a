[package]
name = "dredge"
version = "0.1.0"
edition = "2021"
publish = false

[dependencies]
url = "2"
reqwest = { version = "0.11", default-features = false, features = ["json"] }
serde = { version = "1", features = ["derive"] }
serde_yaml = "0.9"
toml = "0.8"
log = "0.4"
femme = "2"
async-std = { version = "1", features = ["attributes"] }
