[package]
name = "mpc_display_rs"
version = "0.1.0"
edition = "2021"
publish = false

[dependencies]
textwrap = "*"
uuid = { version = "*", features = ["v4"] }
terminal_size = "*"
mpd = "*"
clap = { version = "*", features = ["derive"] }
termios = "*"
