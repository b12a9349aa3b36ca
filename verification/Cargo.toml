[package]
name = "todo_server"
version = "0.1.0"
edition = "2021"
publish = false

[dependencies]
chrono = "0.4"
regex = "1"
rust-crypto = "0.2"
serde = { version = "1", features = ["derive"] }
serde_json = "1"
rocket = { version = "0.5", features = ["json", "secrets"] }
diesel = { version = "1.4", features = ["mysql", "r2d2", "chrono"] }
dotenv = "0.15"
