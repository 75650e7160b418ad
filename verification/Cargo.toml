[package]
name = "aidungeon_client"
version = "0.1.0"
edition = "2021"
publish = false

[dependencies]
http = "*"
reqwest = { version = "*", default-features = false, features = ["blocking", "json", "gzip"] }
serde = { version = "*", features = ["derive"] }
serde_json = "*"
