[package]
name = "you"
version = "0.1.0"
edition = "2021"
publish = false

[dependencies]
anyhow = "*"
async-openai = "=0.27.2"
cchain = "=0.3.42"
chrono = "*"
clap = { version = "*", features = ["derive"] }
console = "=0.15.11"
dirs = "*"
indicatif = "=0.18.6"
serde = { version = "*", features = ["derive"] }
serde_json = "=1.0.151"
surfing = "=0.1.1"
sysinfo = "=0.39.6"
tokio = { version = "*", features = ["rt-multi-thread"] }
