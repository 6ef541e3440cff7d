[package]
name = "lookout_g"
version = "0.1.0"
edition = "2021"
publish = false

[dependencies]
chrono = "0.4"
chrono-tz = "*"
ical = "*"
serde = { version = "1", features = ["derive"] }
serde_json = "1"
reqwest = { version = "*", features = ["blocking"] }
tokio = { version = "1", features = ["rt-multi-thread", "macros"] }
google-calendar3 = "*"
