[package]
name = "mr_copier"
version = "0.1.0"
edition = "2021"
publish = false

[dependencies]
serde_json = "1"
serde = { version = "1", features = ["derive"] }
clap = { version = "4", features = ["derive"] }
dotenv = "0.15"
ureq = { version = "2", features = ["json"] }
