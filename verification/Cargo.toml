[package]
name = "dumbterm"
version = "0.1.0"
edition = "2021"
publish = false

[dependencies]
anyhow = "*"
clap = { version = "*", features = ["derive"] }
nix = { version = "*", features = ["poll", "term"] }
pty-process = "*"
terminal_size = "*"
terminfo = "*"
vte = { version = "*", features = ["ansi"] }
