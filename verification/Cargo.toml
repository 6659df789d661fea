[package]
name = "todo_rs"
version = "0.1.0"
edition = "2021"
publish = false

[dependencies]
anyhow = "1"
better-panic = "*"
chrono = "0.4"
crossbeam-channel = "0.5"
crossterm = "0.25"
dirs-next = "2"
regex = "1"
serde = { version = "1", features = ["derive"] }
serde_yaml = "0.8"
structopt = "0.3"
tui = "0.19"
