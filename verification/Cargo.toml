[package]
name = "scribe"
version = "0.1.0"
edition = "2021"
publish = false

[dependencies]
anyhow = "1"
chrono = "0.4"
clap = { version = "4", features = ["derive"] }
clap_complete = "4"
directories = "*"
serde = { version = "1", features = ["derive"] }
serde_json = "1"
toml = "*"
rusqlite = { version = "*", features = ["bundled"] }
rusqlite_migration = "*"
tracing = "0.1"
tracing-subscriber = { version = "0.3", features = ["env-filter"] }
rpassword = "*"
rustyline = "*"
notify-rust = "*"
