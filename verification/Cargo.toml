[package]
name = "visage_graphics"
version = "0.1.0"
edition = "2021"
publish = false

[dependencies]
widestring = "1"
bitflags = "2"
raw-window-handle = "0.6"
