[package]
name = "windgi"
version = "0.1.0"
edition = "2021"
publish = false

[dependencies]
bitflags = "1"
winapi = { version = "0.3", features = ["minwindef", "windef", "wingdi", "winuser"] }
