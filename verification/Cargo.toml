[package]
name = "mpvtui"
version = "0.1.0"
edition = "2021"
publish = false

[dependencies]
mpvipc = "=1.3.1"
ncurses = "=5.101.0"
