[package]
name = "jinn_domain"
version = "0.1.0"
edition = "2021"
publish = false

[dependencies]
jiff = "0.2"
serde = { version = "1", features = ["derive"] }
serde_json = "1"
tracing = "0.1"
error-stack = "0.5"
rusqlite = { version = "0.32", features = ["bundled"] }
wherror = "*"
parking_lot = "0.12"
