[package]
name = "serenity"
version = "0.1.0"
edition = "2021"
publish = false

[dependencies]
futures = "0.3"
serde = { version = "1", features = ["derive"] }
