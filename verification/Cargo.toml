[package]
name = "rrr_tui"
version = "0.1.0"
edition = "2021"
publish = false

[dependencies]
textwrap = "*"
crossterm = "*"
taffy = "*"
kolor = "*"
clap = { version = "*", features = ["derive"] }
