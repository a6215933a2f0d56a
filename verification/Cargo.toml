[package]
name = "wt"
version = "0.1.0"
edition = "2021"
publish = false

[dependencies]
anyhow = "1"
clap = { version = "4", features = ["derive"] }
clap_complete = "4"
dialoguer = "0.11"
owo-colors = "4"
serde = { version = "1", features = ["derive"] }
toml = "0.8"
which = "*"
