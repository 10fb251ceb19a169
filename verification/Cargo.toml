[package]
name = "aup"
version = "0.1.0"
edition = "2021"
publish = false

[dependencies]
cpal = "=0.17.3"
crossterm = "=0.29.0"
rand = "=0.9.5"
ratatui = "=0.30.2"
rodio = "=0.22.2"
symphonia = { version = "=0.5.5", features = ["aac", "alac", "mp3", "isomp4"] }
symphonia-adapter-libopus = "=0.2.9"
