[package]
name = "reepicheep"
version = "0.1.0"
edition = "2021"
publish = false

[dependencies]
chrono = "=0.4.45"
chrono-tz = "=0.10.4"
dotenv = "=0.15.0"
reqwest = { version = "=0.13.5", default-features = false, features = ["blocking", "form"] }
rusqlite = { version = "=0.40.2", features = ["bundled"] }
serde = { version = "=1.0.229", features = ["derive"] }
serde_json = "=1.0.151"
