[package]
name = "bonusly"
version = "0.1.0"
edition = "2021"
publish = false

[dependencies]
async-trait = "*"
chrono = { version = "*", features = ["serde"] }
dotenv = "*"
futures = "*"
reqwest = { version = "=0.13.5", default-features = false, features = ["json", "gzip", "query"] }
serde = { version = "*", features = ["derive"] }
serde_json = "*"
