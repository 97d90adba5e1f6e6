[package]
name = "netease_cloud_music_gtk4"
version = "0.1.0"
edition = "2021"
publish = false

[dependencies]
discord-rich-presence = "=1.1.0"
log = "=0.4.35"
