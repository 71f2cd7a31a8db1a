[package]
name = "modal_keys"
version = "0.1.0"
edition = "2021"
publish = false

[dependencies]
color-eyre = "*"
crossterm = "*"
crossterm-keybind = "*"
ratatui = "*"
