[package]
name = "nba_scores"
version = "0.1.0"
edition = "2021"
publish = false

[dependencies]
chrono = "0.4"
clap = "2.33"
crossterm = "0.20"
reqwest = { version = "0.11", default-features = false, features = ["blocking"] }
serde_json = "1"
tui = { version = "0.16", default-features = false, features = ["crossterm"] }
