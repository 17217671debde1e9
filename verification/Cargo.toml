[package]
name = "ss_tools"
version = "0.1.0"
edition = "2021"
publish = false

[dependencies]
percent-encoding = "2"
serde = { version = "1", features = ["derive"] }
serde_json = "1"
anyhow = "1"
dotenvy = "*"
fxhash = "*"
indicatif = "*"
reqwest = { version = "*", default-features = false }
