[package]
name = "budgetbot"
version = "0.1.0"
edition = "2021"
publish = false

[dependencies]
chrono = { version = "=0.4.45", features = ["serde"] }
directories = "=6.0.0"
serde = { version = "=1.0.229", features = ["derive"] }
serde_json = "=1.0.151"
uuid = { version = "=1.27.0", features = ["v4", "serde"] }
