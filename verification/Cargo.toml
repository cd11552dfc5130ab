[package]
name = "hyprselect"
version = "0.1.0"
edition = "2021"
publish = false

[dependencies]
regex = "=1.13.1"
clap = { version = "=4.6.7", features = ["derive"] }
color-eyre = "=0.6.5"
crossterm = "=0.29.0"
directories = "=6.0.0"
eyre = "=0.6.14"
hyprland = "=0.3.13"
hyprlang = { version = "=0.5.0", features = ["hyprland", "mutation"] }
ratatui = "=0.30.2"
tempfile = "=3.27.0"
wayland-client = "=0.31.15"
wayland-protocols = { version = "=0.32.13", features = ["client", "staging", "unstable"] }
wayland-protocols-wlr = { version = "=0.3.12", features = ["client"] }
