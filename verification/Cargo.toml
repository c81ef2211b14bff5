[package]
name = "gecko_driver"
version = "0.1.0"
edition = "2021"
publish = false

[dependencies]
bytes = "=1.12.1"
flate2 = "=1.1.10"
reqwest = { version = "=0.11.27", features = ["json"] }
serde = { version = "=1.0.229", features = ["derive"] }
serde_json = "=1.0.154"
tar = "=0.4.46"
zip = { version = "0.6", default-features = false, features = ["deflate"] }
