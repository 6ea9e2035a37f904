[package]
name = "mpv_presence"
version = "0.1.0"
edition = "2021"
publish = false

[dependencies]
discord-rich-presence = "0.1"
libmpv-sys = "3"
