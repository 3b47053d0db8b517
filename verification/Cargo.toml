[package]
name = "ciphey"
version = "0.1.0"
edition = "2021"
publish = false

[dependencies]
rand = "0.8"
base64 = "0.22"
urlencoding = "2"
ratatui = "0.29"
crossterm = "0.28"
serde_json = "1"
log = "0.4"
open = "5"
arboard = "3"
