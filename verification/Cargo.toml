[package]
name = "blaine"
version = "0.1.0"
edition = "2021"
publish = false

[dependencies]
battery = "0.7"
clap = "3"
interfaces = "*"
lazy_static = "1"
log = "0.4"
msgbox = "*"
simplelog = "0.11"
