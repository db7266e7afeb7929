[package]
name = "tab_picker"
version = "0.1.0"
edition = "2021"
publish = false

[dependencies]
fuzzy-matcher = "0.3.7"
unicode-width = "0.1"
zellij-tile = "*"
