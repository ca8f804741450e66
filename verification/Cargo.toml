[package]
name = "bridge_sim"
version = "0.1.0"
edition = "2021"
publish = false

[dependencies]
anyhow = "1"
clap = { version = "4", features = ["derive"] }
crossterm = "0.25"
euclid = "0.22"
iterwindows = "*"
json = "0.12"
signal-hook = "0.3"
tracing = "0.1"
tracing-subscriber = { version = "0.3", features = ["env-filter"] }
tui = { version = "0.19", features = ["crossterm"] }
