[package]
name = "snake_game"
version = "0.1.0"
edition = "2021"
publish = false

[dependencies]
rand = "0.8"
serde_json = "1"
crossterm = "0.27"
log = "0.4"
simplelog = "0.12"
