[package]
name = "parknotes"
version = "0.1.0"
edition = "2021"
publish = false

[dependencies]
crossterm = "0.27"
inquire = "0.7"
ratatui = "0.26"
