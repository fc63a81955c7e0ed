[package]
name = "phoneme_reverser"
version = "0.1.0"
edition = "2021"
publish = false

[dependencies]
anyhow = "1"
chrono = "0.4"
cpal = "0.15"
crossterm = "0.28"
hound = "3.5"
pyo3 = "0.22"
ratatui = "0.29"
tempfile = "3"
thiserror = "1"
