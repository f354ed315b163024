[package]
name = "pomodorust"
version = "0.1.0"
edition = "2021"
publish = false

[dependencies]
chrono = "0.4"
clap = "*"
config = "*"
diesel = { version = "*", features = ["sqlite"] }
serde = { version = "1", features = ["derive"] }
termion = "*"
tui = { version = "*", default-features = false, features = ["termion"] }
