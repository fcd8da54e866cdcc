[package]
name = "notify_hook"
version = "0.1.0"
edition = "2021"
publish = false

[dependencies]
ring = "*"
chrono = "*"
clap = "*"
git2 = { version = "*", default-features = false }
reqwest = { version = "*", default-features = false, features = ["blocking"] }

[dev-dependencies]
serde_json = "*"
