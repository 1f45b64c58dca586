[package]
name = "vac"
version = "0.1.0"
edition = "2021"
publish = false

[dependencies]
bytesize = "*"
clap = { version = "4", features = ["derive"] }
color-eyre = "*"
directories = "*"
ratatui = "*"
rayon = "1"
serde = { version = "1", features = ["derive"] }
serde_json = "1"
toml = "*"
trash = "*"
walkdir = "2"
