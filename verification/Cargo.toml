[package]
name = "babelfish"
version = "0.1.0"
edition = "2021"
publish = false

[dependencies]
serde = { version = "1", features = ["derive"] }
serde_json = "1"
reqwest = { version = "0.11", default-features = false, features = ["rustls-tls"] }
serenity = "0.10"
config = "0.11"
actix-rt = "2"
