[package]
name = "iced_pancurses"
version = "0.1.0"
edition = "2021"
publish = false

[dependencies]
crossterm = "*"
futures = { version = "*", features = ["thread-pool"] }
