[package]
name = "gpui_libghostty"
version = "0.1.0"
edition = "2021"
publish = false

[dependencies]
async-channel = "2"
raw-window-handle = "0.6"
wait-timeout = "0.2"
