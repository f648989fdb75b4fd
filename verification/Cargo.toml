[package]
name = "midi_seq"
version = "0.1.0"
edition = "2021"
publish = false

[dependencies]
alsa-sys = "*"
libc = "*"
futures = "*"
