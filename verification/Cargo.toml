[package]
name = "parados"
version = "1.0.2"
edition = "2021"
publish = false

[dependencies]
html-escape = "0.2"
image = { version = "0.25", default-features = false, features = ["png"] }
dirs = "5"
open = "5"
include_dir = "0.7"
ureq = "2"
tao = "0.30"
wry = "0.44"
