[package]
name = "day_todos"
version = "0.1.0"
edition = "2021"
publish = false

[dependencies]
chrono = "0.4"
crossterm = "0.25"
rusqlite = "0.29"
tui = "0.19"
unicode-width = "0.1"
