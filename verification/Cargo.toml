[package]
name = "timebank"
version = "0.1.0"
edition = "2021"
publish = false

[dependencies]
dotenv = "*"
postgrest = "*"
reqwest = { version = "*", features = ["json"] }
serde = { version = "*", features = ["derive"] }
serde_json = "*"
tokio = { version = "*", features = ["macros", "rt-multi-thread"] }
tonic = "*"
