[package]
name = "password_manager_lib"
version = "0.1.0"
edition = "2021"
publish = false

[dependencies]
aes-gcm = "0.10"
argon2 = "0.5"
base64 = "0.21"
rand = "0.8"
rusqlite = { version = "0.31", features = ["bundled"] }
crossterm = "0.27"
ratatui = "0.26"
arboard = "3"
