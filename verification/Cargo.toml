[package]
name = "psst"
version = "0.1.0"
edition = "2021"
publish = false

[dependencies]
anyhow = "1"
chrono = "0.4"
clap = { version = "4", features = ["derive"] }
directories = "6"
futures-util = "0.3"
hostname = "0.4"
keyring = "3"
notify = "8"
notify-rust = "4"
rand = "0.8"
rpassword = "7"
serde = { version = "1", features = ["derive"] }
serde_ignored = "0.1"
serde_json = "1"
signal-hook = "0.3"
signal-hook-tokio = { version = "0.3", features = ["futures-v0_3"] }
tokio = { version = "1", features = ["full", "test-util"] }
toml = "0.9"
tracing = "0.1"
tracing-appender = "0.2"
tracing-subscriber = { version = "0.3", features = ["env-filter"] }
