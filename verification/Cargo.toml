[package]
name = "vobes"
version = "0.1.0"
edition = "2021"
publish = false

[dependencies]
chrono = { version = "0.4", default-features = false, features = ["std", "clock"] }
serde_json = "1"
dirs = "*"
serde = { version = "1", features = ["derive"] }
toml = "*"
clap = { version = "4", features = ["derive"] }
rusqlite = { version = "*", features = ["bundled"] }
walkdir = "2"
rayon = "1"
git2 = { version = "*", default-features = false }
comfy-table = "*"
console = "*"
indicatif = "*"
tracing-subscriber = { version = "0.3", features = ["env-filter"] }
thiserror = "*"
