[package]
name = "tweers"
version = "0.1.0"
edition = "2021"
publish = false

[dependencies]
async-trait = "0.1"
base64 = "0.13"
chrono = "0.4"
dotenv = "0.15"
hmac-sha1 = "0.1"
percent-encoding = "2"
rand = "0.8"
reqwest = { version = "0.11", features = ["blocking", "json"] }
serde_json = "1"
