[package]
name = "webscreenshotlib"
version = "0.3.0"
edition = "2021"
publish = false

[dependencies]
clap = "2"
failure = "0.1"
headless_chrome = "0.9"
