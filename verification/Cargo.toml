[package]
name = "word_condenser"
version = "0.1.0"
edition = "2021"
publish = false

[dependencies]
futures = "0.3"
log = "0.4"
portpicker = "0.1"
serde = { version = "1", features = ["derive"] }
serde_json = "1"
serde_yaml = "0.9"
sodoken = "0.0.11"
url2 = "0.0.6"
uuid = { version = "1", features = ["v4"] }
