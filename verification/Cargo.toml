[package]
name = "shock_log"
version = "0.1.0"
edition = "2021"
publish = false

[dependencies]
jiff = "*"
clap = { version = "*", features = ["derive"] }
color-eyre = "*"
ratatui = "*"
reqwest = { version = "*", default-features = false, features = ["blocking", "json"] }
serde = { version = "*", features = ["derive"] }
toml = "*"
