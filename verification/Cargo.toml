[package]
name = "asimov-openai-module"
version = "0.1.0"
edition = "2021"
publish = false

[dependencies]
anyhow = "=1.0.104"
clap = { version = "=4.6.7", features = ["derive"] }
serde_json = "=1.0.154"
ureq = { version = "=3.5.0", features = ["json"] }
