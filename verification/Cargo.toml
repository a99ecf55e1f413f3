[package]
name = "synth_sim"
version = "0.1.0"
edition = "2021"
publish = false

[dependencies]
tokio = { version = "1", features = ["rt-multi-thread", "macros", "sync", "time"] }
midir = "*"
cpal = "*"
embedded-graphics = "*"
embedded-graphics-simulator = "*"
static_cell = "*"
crossterm = "*"
ratatui = "*"
rustfft = "*"
rodio = { version = "*", default-features = false }
rand = "*"
