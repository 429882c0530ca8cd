[package]
name = "haoscli"
version = "0.1.0"
edition = "2021"
publish = false

[dependencies]
chrono = { version = "0.4", default-features = false, features = ["std", "serde"] }
clap = { version = "4", features = ["cargo"] }
crossterm = "0.25"
log = "0.4"
reqwest = { version = "0.11", default-features = false, features = ["json"] }
serde = { version = "1", features = ["derive"] }
serde_json = { version = "1", features = ["preserve_order"] }
simple-logging = "2"
tokio = { version = "1", features = ["rt-multi-thread", "time"] }
toml = "0.5"
tui = "0.19"
