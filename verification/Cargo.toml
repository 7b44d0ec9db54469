[package]
name = "sdmap"
version = "0.1.0"
edition = "2021"
publish = false

[dependencies]
evdev = "0.12"
libc = "0.2"
