[package]
name = "browser_chrome"
version = "0.1.0"
edition = "2021"
publish = false

[dependencies]
anyhow = "1"
url = "2"
urlencoding = "2"
wry = "*"
