[package]
name = "wsta"
version = "0.5.0"
edition = "2021"
publish = false

[dependencies]
argparse = "0.2"
config = "0.1"
cookie = "0.2"
hyper = "0.9"
websocket = "0.17"
xdg = "2"
