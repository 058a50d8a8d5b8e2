[package]
name = "git_log_to_sqlite"
version = "0.1.0"
edition = "2021"
publish = false

[dependencies]
anyhow = "*"
camino = "*"
clap = { version = "*", features = ["derive"] }
git2 = { version = "*", default-features = false }
indicatif = "*"
r2d2 = "*"
r2d2_sqlite = "*"
rusqlite = { version = "*", features = ["bundled"] }
serde = { version = "*", features = ["derive"] }
tokio = { version = "*", features = ["rt-multi-thread"] }
toml = "*"
walkdir = "*"

[dev-dependencies]
tempfile = "*"
