[package]
name = "llmmigrate"
version = "0.1.0"
edition = "2021"
publish = false

[dependencies]
anthropic = "*"
anyhow = "*"
clap = { version = "*", features = ["derive", "env"] }
tokio = { version = "*", features = ["macros", "rt-multi-thread"] }
