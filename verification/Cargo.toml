[package]
name = "rina_bot"
version = "0.1.0"
edition = "2021"
publish = false

[dependencies]
anyhow = "1"
bytes = "1"
dotenv = "=0.15.0"
rand = "=0.8.8"
reqwest = { version = "=0.11.27", features = ["json", "multipart"] }
reqwest-oauth1 = "=0.3.0"
rig-core = "=0.29.0"
serde = { version = "1", features = ["derive"] }
serde_json = "1"
takecell = "=0.1.1"
teloxide = "=0.12.2"
tokio = { version = "1", features = ["macros", "rt-multi-thread", "time"] }
twitter-v2 = "=0.1.8"
