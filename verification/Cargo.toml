[package]
name = "peekaboo"
version = "1.0.0"
edition = "2021"
publish = false

[dependencies]
clap = { version = "4", features = ["derive"] }
colored = "2"
crossterm = "0.27"
home = "0.5"
serde = { version = "1", features = ["derive"] }
serde_json = "1"
sysinfo = "0.30"
