[package]
name = "corvopay"
version = "0.1.0"
edition = "2021"
publish = false

[dependencies]
serde = { version = "1", features = ["derive"] }
serde_json = "1"
uuid = { version = "1", features = ["serde"] }
thiserror = "2"
chrono = { version = "0.4", default-features = false, features = ["serde", "std", "clock"] }
reqwest = { version = "0.12", default-features = false }
