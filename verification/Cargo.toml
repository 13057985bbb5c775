[package]
name = "lingo_export"
version = "0.1.0"
edition = "2021"
publish = false

[dependencies]
calamine = "0.22"
chrono = "0.4"
indexmap = "2"
json = "0.12"
serde = { version = "1", features = ["derive"] }
serde_json = "1"
walkdir = "2"
zip = "0.6"
