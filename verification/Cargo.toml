[package]
name = "chatsounds_plugin"
version = "0.1.0"
edition = "2021"
publish = false

[dependencies]
classicube-sys = "*"
detour = "*"
lazy_static = "1"
parking_lot = "0.12"
rand = "0.8"
