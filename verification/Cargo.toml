[package]
name = "fsel"
version = "0.1.0"
edition = "2021"
publish = false

[dependencies]
lexopt = "=0.3.2"
shell-words = "=1.1.1"
strip-ansi-escapes = "=0.2.1"
serde = { version = "=1.0.229", features = ["derive"] }
toml = "=1.1.8"
directories = "=6.0.0"
crossterm = "=0.29.0"
serde_json = "1"
