[package]
name = "cracked"
version = "0.1.0"
edition = "2021"
publish = false

[dependencies]
clap = { version = "4", features = ["derive"] }
crossterm = "0.28"
ratatui = "0.29"
reqwest = "0.12"
scraper = "*"
tokio = { version = "1", features = ["macros", "rt-multi-thread"] }
