[package]
name = "lemmatizer"
version = "0.1.0"
edition = "2021"
publish = false

[dependencies]
charabia = { version = "0.9", default-features = false }
uuid = "1"
serde = { version = "1", features = ["derive"] }
serde_json = "1"
tracing = "0.1"
