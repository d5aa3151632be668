[package]
name = "promptcmd"
version = "0.1.0"
edition = "2021"
publish = false

[dependencies]
dirs = "*"
xxhash-rust = { version = "*", features = ["xxh3"] }
regex = "1"
serde = { version = "1", features = ["derive"] }
serde_yaml = "0.9"
serde_json = "1"
toml = "*"
clap = { version = "4", features = ["derive"] }
handlebars = "*"
llm = { version = "1.3.8", default-features = false, features = ["openai", "anthropic", "ollama", "google", "openrouter"] }
tokio = { version = "1", features = ["rt-multi-thread"] }
futures = "0.3"
log = "0.4"
anyhow = "1"
thiserror = "*"
chrono = "*"
symlink = "*"
