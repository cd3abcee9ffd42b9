[package]
name = "fuzzy_picker"
version = "0.1.0"
edition = "2021"
publish = false

[dependencies]
anyhow = "*"
crossterm = "*"
gix = "*"
nucleo = "*"
