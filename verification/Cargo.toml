[package]
name = "taiga"
version = "0.1.0"
edition = "2021"
publish = false

[dependencies]
chrono = "0.4"
chrono-english = "0.1"
clap = { version = "4", features = ["derive"] }
confy = "*"
directories = "*"
dirs = "*"
interprocess = { version = "2", features = ["tokio"] }
notify-rust = "4"
regex = "1"
serde = { version = "1", features = ["derive"] }
serde_json = "1"
tokio = { version = "1", features = ["full"] }
