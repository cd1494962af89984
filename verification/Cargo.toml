[package]
name = "codex_pal"
version = "0.1.0"
edition = "2021"
publish = false

[dependencies]
anyhow = "1"
clap = { version = "4", features = ["derive", "env"] }
dirs = "*"
fs2 = "0.4"
serde = { version = "1", features = ["derive"] }
serde_json = "1"
toml = "*"
which = "*"
