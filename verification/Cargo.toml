[package]
name = "chat_client"
version = "0.1.0"
edition = "2021"
publish = false

[dependencies]
clap = { version = "*", features = ["derive"] }
console = "*"
dialoguer = "*"
indicatif = "*"
reqwest = { version = "*", features = ["json"] }
serde = "*"
serde_json = "*"
textwrap = "*"
tokio = { version = "*", features = ["macros", "rt-multi-thread"] }
