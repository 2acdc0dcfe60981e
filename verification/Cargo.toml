[package]
name = "gemini_commit"
version = "0.1.0"
edition = "2021"
publish = false

[dependencies]
anyhow = "*"
async-trait = "*"
clap = { version = "*", features = ["derive"] }
colored = "*"
dotenv = "*"
indicatif = "*"
reqwest = { version = "*", default-features = false }
serde_json = "*"
tokio = { version = "*", features = ["macros", "rt-multi-thread"] }
