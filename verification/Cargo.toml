[package]
name = "osu_player"
version = "0.1.0"
edition = "2021"
publish = false

[dependencies]
rand = "0.8"
rodio = "0.17"
serde = { version = "1", features = ["derive"] }
serde_json = "1"
crossterm = "0.25"
tui = "0.19"
libosu = "*"
mp3-duration = "0.1"
unicode-width = "0.1"
