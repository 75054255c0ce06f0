[package]
name = "firestore"
version = "0.1.0"
edition = "2021"
publish = false

[dependencies]
chrono = "*"
serde = "*"
serde_json = "*"
arc-swap = "*"
tokio = { version = "*", features = ["rt", "sync", "time", "macros"] }
anyhow = "*"
futures = "*"
yup-oauth2 = "*"
