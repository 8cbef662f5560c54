[package]
name = "remipn"
version = "0.1.0"
edition = "2021"
publish = false

[dependencies]
anyhow = "1"
async-process = "2"
chrono = "0.4"
clap = { version = "4", features = ["derive"] }
colored = "2"
comfy-table = "7"
crossterm = "0.28"
dirs = "5"
log = "0.4"
quick-xml = { version = "0.36", features = ["serialize"] }
ratatui = "0.29"
regex = "1"
serde = { version = "1", features = ["derive"] }
tokio = { version = "1", features = ["full"] }
toml = "0.8"
tracing-subscriber = { version = "0.3", features = ["env-filter"] }
