[package]
name = "tablet_map"
version = "0.1.0"
edition = "2021"
publish = false

[dependencies]
ctrlc = "3"
dirs = "5"
evdev = "0.13"
input-linux = "0.7"
