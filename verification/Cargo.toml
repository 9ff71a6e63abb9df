[package]
name = "autoclicker"
version = "0.1.0"
edition = "2021"
publish = false

[dependencies]
clap = { version = "*", features = ["derive"] }
libc = "*"
signal-hook = "*"
wayland-client = "*"
wayland-protocols-wlr = { version = "*", features = ["client"] }
