[package]
name = "cim_core"
version = "0.1.0"
edition = "2021"
publish = false

[dependencies]
xi-rope = "*"
clap = { version = "*", features = ["derive"] }
crossterm = "*"
tui = "*"
syntect = { version = "*", default-features = false, features = ["default-fancy"] }
