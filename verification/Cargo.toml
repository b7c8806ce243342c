[package]
name = "quantum_launcher"
version = "0.1.0"
edition = "2021"
publish = false

[dependencies]
chrono = "=0.4.45"
filthy-rich = "=1.0.6"
crossterm = "=0.28.1"
ratatui = "=0.29.0"
textwrap = "=0.16.4"
serde_json = "=1.0.154"
tokio = { version = "=1.54.1", features = ["rt-multi-thread", "sync", "time", "process", "io-util", "fs"] }
