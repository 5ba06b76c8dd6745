[package]
name = "tokengen"
version = "0.1.0"
edition = "2021"
publish = false

[dependencies]
chrono = "0.4"
clap = "2"
clipboard = "0.5"
dirs = "5"
edit = "0.1"
reqwest = { version = "0.11", default-features = false, features = ["blocking", "json"] }
serde = { version = "1", features = ["derive"] }
serde_json = "1"
webbrowser = "0.8"
