[package]
name = "ws_live_server"
version = "0.1.0"
edition = "2021"
publish = false

[dependencies]
clap = "2.33"
url = "2"
ws = "0.9"
